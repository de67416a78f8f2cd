//! Target-keyed registry and the per-node dispatch engine.
//!
//! A registry holds at most one visitor per annotation target; it is
//! populated once, before any node is visited. The engine processes one
//! node at a time: for each distinct target present on the node's
//! annotations, it looks the owning visitor up, invokes the one hook
//! matching the node's kind, and merges any returned contribution into
//! the node's `AnnotationResult`. A target with no registered visitor
//! yields a recorded, non-fatal diagnostic and contributes nothing: an
//! annotation is an opt-in decoration, and an unresolved target never
//! aborts the run nor disturbs what other targets contributed.

use vstd::prelude::*;

verus! {

use crate::return_types::{find_key_index, AnnotationResult, ResultContributions, VisitAction};
use crate::schema::SchemaNode;
use crate::visitor::Visitor;
use vstd::string::StringExecFns;

/// What a diagnostic reports.
#[derive(Debug, Clone, Copy, PartialEq, Eq, Structural)]
pub enum DiagnosticKind {
    /// An annotation target with no registered visitor
    UnresolvedTarget,
    /// A second registration under an already-used target
    DuplicateRegistration,
}

/// A named diagnostic identifying the offending target string.
#[derive(Debug, Clone)]
pub struct Diagnostic {
    /// What is being reported
    pub kind: DiagnosticKind,
    /// The target string at fault
    pub target: String,
}

impl Diagnostic {
    /// Render the diagnostic as one human-readable line naming the
    /// offending target.
    pub fn message(&self) -> (r: String)
        ensures
            self.kind == DiagnosticKind::UnresolvedTarget ==> r@ == "no visitor registered for target '"@
                + self.target@ + "'"@,
            self.kind == DiagnosticKind::DuplicateRegistration ==> r@ == "duplicate registration for target '"@
                + self.target@ + "'"@,
    {
        let mut s = if self.kind == DiagnosticKind::UnresolvedTarget {
            String::from_str("no visitor registered for target '")
        } else {
            String::from_str("duplicate registration for target '")
        };
        s.append(self.target.as_str());
        s.append("'");
        s
    }
}

/// Whether some entry of an association list carries the given key.
pub open spec fn entries_contain<V>(entries: Seq<(String, V)>, target: Seq<char>) -> bool {
    exists|i: int| 0 <= i < entries.len() && entries[i].0@ == target
}

/// The target-keyed visitor registry: a map from annotation target to the
/// one visitor that owns it. It is constructed explicitly per generation
/// run and passed by reference through traversal, never stored as ambient
/// global state, so concurrent runs stay isolated from one another.
pub struct Registry<V> {
    entries: Vec<(String, V)>,
}

impl<V> Registry<V> {
    /// The registered (target, visitor) pairs, in registration order.
    pub closed spec fn spec_entries(&self) -> Seq<(String, V)> {
        self.entries@
    }

    /// Whether a visitor is registered under the target.
    pub open spec fn spec_contains(&self, target: Seq<char>) -> bool {
        entries_contain(self.spec_entries(), target)
    }

    /// At most one visitor per target, at any time.
    pub open spec fn wf(&self) -> bool {
        forall|i: int, j: int|
            0 <= i < j < self.spec_entries().len() ==> self.spec_entries()[i].0@
                != self.spec_entries()[j].0@
    }

    /// Create an empty registry.
    pub fn new() -> (r: Self)
        ensures
            r.spec_entries() == Seq::<(String, V)>::empty(),
            r.wf(),
    {
        Registry { entries: Vec::new() }
    }

    /// The number of registered visitors.
    pub fn len(&self) -> (n: usize)
        ensures
            n == self.spec_entries().len(),
    {
        self.entries.len()
    }

    /// Register a visitor under a target. A second registration under an
    /// already-used target is a configuration error, surfaced at setup
    /// time: it is refused with a diagnostic naming the target, and the
    /// registry keeps the visitor it had.
    pub fn register(&mut self, target: String, visitor: V) -> (r: Result<(), Diagnostic>)
        ensures
            !old(self).spec_contains(target@) ==> r is Ok && final(self).spec_entries() == old(
                self,
            ).spec_entries().push((target, visitor)),
            old(self).spec_contains(target@) ==> (r matches Err(d) && d.kind
                == DiagnosticKind::DuplicateRegistration && d.target == target
                && final(self).spec_entries() == old(self).spec_entries()),
            old(self).wf() ==> final(self).wf(),
    {
        match find_key_index(&self.entries, &target) {
            Some(_) => Err(Diagnostic { kind: DiagnosticKind::DuplicateRegistration, target }),
            None => {
                let ghost es = self.entries@;
                self.entries.push((target, visitor));
                proof {
                    assert(es == old(self).spec_entries());
                    assert(self.entries@ == es.push((target, visitor)));
                    if old(self).wf() {
                        assert forall|i: int, j: int|
                            0 <= i < j < self.entries@.len() implies self.entries@[i].0@
                            != self.entries@[j].0@ by {
                            if j < es.len() {
                                assert(self.entries@[i] == es[i]);
                                assert(self.entries@[j] == es[j]);
                                assert(old(self).spec_entries()[i].0@ != old(
                                    self,
                                ).spec_entries()[j].0@);
                            } else {
                                assert(self.entries@[j] == (target, visitor));
                                assert(es[i].0@ != target@);
                            }
                        }
                    }
                }
                Ok(())
            },
        }
    }

    /// Whether a visitor is registered under the target.
    pub fn contains_target(&self, target: &str) -> (r: bool)
        ensures
            r == self.spec_contains(target@),
    {
        let key = target.to_owned();
        match find_key_index(&self.entries, &key) {
            Some(i) => {
                proof {
                    assert(self.entries@[i as int].0@ == target@);
                }
                true
            },
            None => false,
        }
    }

    /// Look up the visitor registered under a target, by position. On a
    /// miss, record a non-fatal diagnostic naming the target and return
    /// nothing: the node's generation proceeds without that contribution.
    pub fn find_visitor_with_warning(
        &self,
        target: &String,
        diagnostics: &mut Vec<Diagnostic>,
    ) -> (r: Option<usize>)
        ensures
            match r {
                Some(i) => i < self.spec_entries().len() && self.spec_entries()[i as int].0@
                    == target@ && final(diagnostics)@ == old(diagnostics)@,
                None => !self.spec_contains(target@) && final(diagnostics)@ == old(
                    diagnostics,
                )@.push(
                    (Diagnostic { kind: DiagnosticKind::UnresolvedTarget, target: *target }),
                ),
            },
    {
        match find_key_index(&self.entries, target) {
            Some(i) => Some(i),
            None => {
                diagnostics.push(
                    Diagnostic { kind: DiagnosticKind::UnresolvedTarget, target: target.clone() },
                );
                None
            },
        }
    }
}

/// Whether position `i` holds the first annotation carrying its target.
pub open spec fn first_occurrence(anns: Seq<(String, String)>, i: int) -> bool {
    forall|j: int| 0 <= j < i ==> anns[j].0@ != anns[i].0@
}

/// The distinct annotation targets with no registered visitor: the target
/// of each first occurrence that no entry of the registry carries, in
/// source order.
pub open spec fn unresolved_targets<V>(
    anns: Seq<(String, String)>,
    entries: Seq<(String, V)>,
) -> Seq<String>
    decreases anns.len(),
{
    if anns.len() == 0 {
        Seq::empty()
    } else {
        let prefix = unresolved_targets(anns.drop_last(), entries);
        if first_occurrence(anns, anns.len() - 1) && !entries_contain(entries, anns.last().0@) {
            prefix.push(anns.last().0)
        } else {
            prefix
        }
    }
}

/// One unresolved-target diagnostic per target, in order.
pub open spec fn unresolved_diagnostics(targets: Seq<String>) -> Seq<Diagnostic> {
    targets.map_values(
        |t: String| (Diagnostic { kind: DiagnosticKind::UnresolvedTarget, target: t }),
    )
}

/// Whether an earlier annotation carries the same target as the one at
/// position `i`.
fn target_seen_before(annotations: &Vec<(String, String)>, i: usize) -> (r: bool)
    requires
        i < annotations@.len(),
    ensures
        r == !first_occurrence(annotations@, i as int),
{
    let mut j: usize = 0;
    while j < i
        invariant
            j <= i,
            i < annotations@.len(),
            forall|k: int| 0 <= k < j ==> annotations@[k].0@ != annotations@[i as int].0@,
        decreases i - j,
    {
        if annotations[j].0 == annotations[i].0 {
            proof {
                assert(annotations@[j as int].0@ == annotations@[i as int].0@);
            }
            return true;
        }
        j = j + 1;
    }
    false
}

/// Process one schema node's annotations through the registry.
///
/// For each distinct target present on the node's annotations, in source
/// order of first appearance: look the owning visitor up, invoke the one
/// hook matching the node's kind — handing it the payload of the target's
/// first occurrence; the full payload list stays available through the
/// extraction queries — and merge any returned contribution into the
/// node's result, in invocation order. A target with no registered
/// visitor adds one diagnostic naming it, contributes nothing, and leaves
/// the contributions collected from the other targets untouched. The
/// registry's targets are exactly as before the call; only the visitors'
/// own private state may have changed.
pub fn process_node<V: Visitor<Contributions = ResultContributions>>(
    registry: &mut Registry<V>,
    node: &SchemaNode,
    annotations: &Vec<(String, String)>,
    diagnostics: &mut Vec<Diagnostic>,
) -> (result: AnnotationResult)
    ensures
        final(registry).spec_entries().len() == old(registry).spec_entries().len(),
        forall|k: int|
            0 <= k < final(registry).spec_entries().len() ==> final(registry).spec_entries()[k].0
                == old(registry).spec_entries()[k].0,
        old(registry).wf() ==> final(registry).wf(),
        final(diagnostics)@ == old(diagnostics)@ + unresolved_diagnostics(
            unresolved_targets(annotations@, old(registry).spec_entries()),
        ),
        result.action == VisitAction::Continue,
        (forall|k: int|
            0 <= k < annotations@.len() ==> !entries_contain(
                old(registry).spec_entries(),
                annotations@[k].0@,
            )) ==> result.spec_is_empty(),
{
    let mut result = AnnotationResult::new();
    let ghost entries0 = registry.spec_entries();
    let n = annotations.len();
    let mut i: usize = 0;
    while i < n
        invariant
            i <= n,
            n == annotations@.len(),
            registry.spec_entries().len() == entries0.len(),
            forall|k: int|
                0 <= k < entries0.len() ==> registry.spec_entries()[k].0 == entries0[k].0,
            diagnostics@ == old(diagnostics)@ + unresolved_diagnostics(
                unresolved_targets(annotations@.take(i as int), entries0),
            ),
            result.action == VisitAction::Continue,
            (forall|k: int|
                0 <= k < annotations@.len() ==> !entries_contain(entries0, annotations@[k].0@))
                ==> result.spec_is_empty(),
        decreases n - i,
    {
        let ghost pre_targets = unresolved_targets(annotations@.take(i as int), entries0);
        proof {
            assert(annotations@.take(i as int + 1).drop_last() =~= annotations@.take(i as int));
            assert(annotations@.take(i as int + 1).last() == annotations@[i as int]);
            assert(forall|j: int|
                0 <= j <= i ==> annotations@.take(i as int + 1)[j] == annotations@[j]);
            assert(first_occurrence(annotations@.take(i as int + 1), i as int)
                == first_occurrence(annotations@, i as int));
        }
        let pair = &annotations[i];
        if !target_seen_before(annotations, i) {
            match registry.find_visitor_with_warning(&pair.0, diagnostics) {
                Some(vi) => {
                    proof {
                        assert(registry.spec_entries()[vi as int].0 == entries0[vi as int].0);
                        assert(entries_contain(entries0, annotations@[i as int].0@));
                    }
                    let ghost entries_pre = registry.spec_entries();
                    let (key, mut visitor) = registry.entries.remove(vi);
                    match node {
                        SchemaNode::Record(record, type_id) => {
                            if let Some(c) = visitor.visit_record(&pair.1, record, *type_id) {
                                result.merge_type_contribution(c);
                            }
                        },
                        SchemaNode::Variant(variant, type_id) => {
                            if let Some(c) = visitor.visit_variant(&pair.1, variant, *type_id) {
                                result.merge_type_contribution(c);
                            }
                        },
                        SchemaNode::Enum(enum_, type_id) => {
                            if let Some(c) = visitor.visit_enum(&pair.1, enum_, *type_id) {
                                result.merge_type_contribution(c);
                            }
                        },
                        SchemaNode::Flags(flags, type_id) => {
                            if let Some(c) = visitor.visit_flags(&pair.1, flags, *type_id) {
                                result.merge_type_contribution(c);
                            }
                        },
                        SchemaNode::Resource(type_id) => {
                            if let Some(c) = visitor.visit_resource(&pair.1, *type_id) {
                                result.merge_type_contribution(c);
                            }
                        },
                        SchemaNode::Field(field, index) => {
                            if let Some(c) = visitor.visit_field(&pair.1, field, *index) {
                                result.merge_field_contribution(field.name.clone(), c);
                            }
                        },
                        SchemaNode::Case(case, index) => {
                            if let Some(c) = visitor.visit_variant_case(&pair.1, case, *index) {
                                result.merge_case_contribution(case.name.clone(), c);
                            }
                        },
                        SchemaNode::Function(func) => {
                            if let Some(c) = visitor.visit_function(&pair.1, func) {
                                result.merge_function_contribution(c);
                            }
                        },
                        SchemaNode::Interface(interface) => {
                            if let Some(c) = visitor.visit_interface(&pair.1, interface.as_ref()) {
                                result.merge_module_contribution(c);
                            }
                        },
                        SchemaNode::World(world) => {
                            if let Some(c) = visitor.visit_world(&pair.1, world) {
                                result.merge_module_contribution(c);
                            }
                        },
                    }
                    registry.entries.insert(vi, (key, visitor));
                    proof {
                        assert(registry.spec_entries() =~= entries_pre.update(
                            vi as int,
                            (entries_pre[vi as int].0, registry.spec_entries()[vi as int].1),
                        ));
                        assert(unresolved_targets(annotations@.take(i as int + 1), entries0)
                            == pre_targets);
                    }
                },
                None => {
                    proof {
                        assert(!entries_contain(entries0, annotations@[i as int].0@)) by {
                            if entries_contain(entries0, annotations@[i as int].0@) {
                                let w = choose|w: int|
                                    0 <= w < entries0.len() && entries0[w].0@ == annotations@[
                                        i as int
                                    ].0@;
                                assert(registry.spec_entries()[w].0@ == annotations@[
                                    i as int
                                ].0@);
                            }
                        }
                        assert(unresolved_targets(annotations@.take(i as int + 1), entries0)
                            == pre_targets.push(annotations@[i as int].0));
                        assert(unresolved_diagnostics(pre_targets.push(annotations@[i as int].0))
                            =~= unresolved_diagnostics(pre_targets).push(
                            (Diagnostic {
                                kind: DiagnosticKind::UnresolvedTarget,
                                target: annotations@[i as int].0,
                            }),
                        ));
                        assert(diagnostics@ =~= old(diagnostics)@ + unresolved_diagnostics(
                            unresolved_targets(annotations@.take(i as int + 1), entries0),
                        ));
                    }
                },
            }
        } else {
            proof {
                assert(unresolved_targets(annotations@.take(i as int + 1), entries0)
                    == pre_targets);
            }
        }
        i = i + 1;
    }
    proof {
        assert(annotations@.take(n as int) =~= annotations@);
        if old(registry).wf() {
            assert forall|a: int, b: int|
                0 <= a < b < registry.spec_entries().len() implies registry.spec_entries()[a].0@
                != registry.spec_entries()[b].0@ by {
                assert(registry.spec_entries()[a].0 == entries0[a].0);
                assert(registry.spec_entries()[b].0 == entries0[b].0);
            }
        }
    }
    result
}

} // verus!
