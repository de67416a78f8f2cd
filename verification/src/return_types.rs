//! Per-node aggregation of visitor output.
//!
//! The contribution types here are the ones a hook returns to the dispatch
//! engine, and `AnnotationResult` is the per-node aggregate that collects
//! every contribution produced for one schema node across all matched
//! visitors. Contributions of the same kind concatenate in invocation
//! order; field- and case-level contributions are additionally keyed by
//! name, so contributions to different fields or cases never collide.

use vstd::prelude::*;

verus! {

use crate::visitor::ContributionTypes;

/// The family of contribution types that `AnnotationResult` aggregates,
/// bound as one unit: a visitor whose contributions bind to this family
/// can be driven by the dispatch engine.
pub struct ResultContributions;

impl ContributionTypes for ResultContributions {
    type Type = TypeContribution;

    type Field = FieldContribution;

    type VariantCase = VariantCaseContribution;

    type Function = FunctionContribution;

    type Module = ModuleContribution;
}

/// Contributions for type definitions (records, variants, enums, flags,
/// resources).
#[derive(Debug, Clone)]
pub struct TypeContribution {
    /// Derive macros to add (e.g. `Clone`, `Debug`)
    pub derives: Vec<String>,
    /// Raw attributes to add (e.g. `#[repr(C)]`)
    pub attributes: Vec<String>,
}

impl TypeContribution {
    /// True when no entry has ever been added.
    pub open spec fn spec_is_empty(&self) -> bool {
        self.derives@.len() == 0 && self.attributes@.len() == 0
    }

    pub fn new() -> (r: Self)
        ensures
            r.spec_is_empty(),
            r.derives@ == Seq::<String>::empty(),
            r.attributes@ == Seq::<String>::empty(),
    {
        TypeContribution { derives: Vec::new(), attributes: Vec::new() }
    }

    /// Add a derive macro
    pub fn add_derive(&mut self, derive: String)
        ensures
            final(self).derives@ == old(self).derives@.push(derive),
            final(self).attributes@ == old(self).attributes@,
            !final(self).spec_is_empty(),
    {
        self.derives.push(derive);
    }

    /// Add an attribute
    pub fn add_attribute(&mut self, attr: String)
        ensures
            final(self).attributes@ == old(self).attributes@.push(attr),
            final(self).derives@ == old(self).derives@,
            !final(self).spec_is_empty(),
    {
        self.attributes.push(attr);
    }

    /// Merge another contribution of the same kind into this one: each of
    /// its lists is appended after the entries already collected here.
    pub fn merge(&mut self, other: TypeContribution)
        ensures
            final(self).derives@ == old(self).derives@ + other.derives@,
            final(self).attributes@ == old(self).attributes@ + other.attributes@,
    {
        let mut other = other;
        self.derives.append(&mut other.derives);
        self.attributes.append(&mut other.attributes);
    }

    /// Check if empty
    pub fn is_empty(&self) -> (r: bool)
        ensures
            r == self.spec_is_empty(),
    {
        self.derives.is_empty() && self.attributes.is_empty()
    }
}

/// Contributions for field definitions within records.
#[derive(Debug, Clone)]
pub struct FieldContribution {
    /// Field-level attributes (e.g. `#[serde(rename = "foo")]`)
    pub attributes: Vec<String>,
}

impl FieldContribution {
    /// True when no entry has ever been added.
    pub open spec fn spec_is_empty(&self) -> bool {
        self.attributes@.len() == 0
    }

    pub fn new() -> (r: Self)
        ensures
            r.spec_is_empty(),
            r.attributes@ == Seq::<String>::empty(),
    {
        FieldContribution { attributes: Vec::new() }
    }

    /// Add an attribute
    pub fn add_attribute(&mut self, attr: String)
        ensures
            final(self).attributes@ == old(self).attributes@.push(attr),
            !final(self).spec_is_empty(),
    {
        self.attributes.push(attr);
    }

    /// Merge another contribution of the same kind into this one.
    pub fn merge(&mut self, other: FieldContribution)
        ensures
            final(self).attributes@ == old(self).attributes@ + other.attributes@,
    {
        let mut other = other;
        self.attributes.append(&mut other.attributes);
    }

    /// Check if empty
    pub fn is_empty(&self) -> (r: bool)
        ensures
            r == self.spec_is_empty(),
    {
        self.attributes.is_empty()
    }
}

/// Contributions for variant/enum cases.
#[derive(Debug, Clone)]
pub struct VariantCaseContribution {
    /// Case-level attributes (e.g. `#[serde(rename = "foo")]`)
    pub attributes: Vec<String>,
}

impl VariantCaseContribution {
    /// True when no entry has ever been added.
    pub open spec fn spec_is_empty(&self) -> bool {
        self.attributes@.len() == 0
    }

    pub fn new() -> (r: Self)
        ensures
            r.spec_is_empty(),
            r.attributes@ == Seq::<String>::empty(),
    {
        VariantCaseContribution { attributes: Vec::new() }
    }

    /// Add an attribute
    pub fn add_attribute(&mut self, attr: String)
        ensures
            final(self).attributes@ == old(self).attributes@.push(attr),
            !final(self).spec_is_empty(),
    {
        self.attributes.push(attr);
    }

    /// Merge another contribution of the same kind into this one.
    pub fn merge(&mut self, other: VariantCaseContribution)
        ensures
            final(self).attributes@ == old(self).attributes@ + other.attributes@,
    {
        let mut other = other;
        self.attributes.append(&mut other.attributes);
    }

    /// Check if empty
    pub fn is_empty(&self) -> (r: bool)
        ensures
            r == self.spec_is_empty(),
    {
        self.attributes.is_empty()
    }
}

/// Contributions for function definitions.
#[derive(Debug, Clone)]
pub struct FunctionContribution {
    /// Function-level attributes (e.g. `#[inline]`, `#[must_use]`)
    pub attributes: Vec<String>,
    /// Code to prepend to the function body
    pub body_prefix: Vec<String>,
}

impl FunctionContribution {
    /// True when no entry has ever been added.
    pub open spec fn spec_is_empty(&self) -> bool {
        self.attributes@.len() == 0 && self.body_prefix@.len() == 0
    }

    pub fn new() -> (r: Self)
        ensures
            r.spec_is_empty(),
            r.attributes@ == Seq::<String>::empty(),
            r.body_prefix@ == Seq::<String>::empty(),
    {
        FunctionContribution { attributes: Vec::new(), body_prefix: Vec::new() }
    }

    /// Add an attribute
    pub fn add_attribute(&mut self, attr: String)
        ensures
            final(self).attributes@ == old(self).attributes@.push(attr),
            final(self).body_prefix@ == old(self).body_prefix@,
            !final(self).spec_is_empty(),
    {
        self.attributes.push(attr);
    }

    /// Add code to prepend to function body
    pub fn add_body_prefix(&mut self, code: String)
        ensures
            final(self).body_prefix@ == old(self).body_prefix@.push(code),
            final(self).attributes@ == old(self).attributes@,
            !final(self).spec_is_empty(),
    {
        self.body_prefix.push(code);
    }

    /// Merge another contribution of the same kind into this one.
    pub fn merge(&mut self, other: FunctionContribution)
        ensures
            final(self).attributes@ == old(self).attributes@ + other.attributes@,
            final(self).body_prefix@ == old(self).body_prefix@ + other.body_prefix@,
    {
        let mut other = other;
        self.attributes.append(&mut other.attributes);
        self.body_prefix.append(&mut other.body_prefix);
    }

    /// Check if empty
    pub fn is_empty(&self) -> (r: bool)
        ensures
            r == self.spec_is_empty(),
    {
        self.attributes.is_empty() && self.body_prefix.is_empty()
    }
}

/// Contributions for module-level code.
#[derive(Debug, Clone)]
pub struct ModuleContribution {
    /// Use statements to add
    pub use_statements: Vec<String>,
    /// Additional code to add to module
    pub additional_code: Vec<String>,
}

impl ModuleContribution {
    /// True when no entry has ever been added.
    pub open spec fn spec_is_empty(&self) -> bool {
        self.use_statements@.len() == 0 && self.additional_code@.len() == 0
    }

    pub fn new() -> (r: Self)
        ensures
            r.spec_is_empty(),
            r.use_statements@ == Seq::<String>::empty(),
            r.additional_code@ == Seq::<String>::empty(),
    {
        ModuleContribution { use_statements: Vec::new(), additional_code: Vec::new() }
    }

    /// Add a use statement
    pub fn add_use(&mut self, use_stmt: String)
        ensures
            final(self).use_statements@ == old(self).use_statements@.push(use_stmt),
            final(self).additional_code@ == old(self).additional_code@,
            !final(self).spec_is_empty(),
    {
        self.use_statements.push(use_stmt);
    }

    /// Add code to module
    pub fn add_code(&mut self, code: String)
        ensures
            final(self).additional_code@ == old(self).additional_code@.push(code),
            final(self).use_statements@ == old(self).use_statements@,
            !final(self).spec_is_empty(),
    {
        self.additional_code.push(code);
    }

    /// Merge another contribution of the same kind into this one.
    pub fn merge(&mut self, other: ModuleContribution)
        ensures
            final(self).use_statements@ == old(self).use_statements@ + other.use_statements@,
            final(self).additional_code@ == old(self).additional_code@ + other.additional_code@,
    {
        let mut other = other;
        self.use_statements.append(&mut other.use_statements);
        self.additional_code.append(&mut other.additional_code);
    }

    /// Check if empty
    pub fn is_empty(&self) -> (r: bool)
        ensures
            r == self.spec_is_empty(),
    {
        self.use_statements.is_empty() && self.additional_code.is_empty()
    }
}

/// Merging an empty contribution with a contribution leaves the latter's
/// entries unchanged, in either order; merging appends list to list, so
/// this holds entry list by entry list.
pub proof fn lemma_merge_empty_is_identity(s: Seq<String>, e: Seq<String>)
    requires
        e.len() == 0,
    ensures
        s + e == s,
        e + s == s,
{
    assert(s + e =~= s);
    assert(e + s =~= s);
}

/// Action to take after processing annotations
#[derive(Debug, Clone, Copy, PartialEq, Eq, Structural)]
pub enum VisitAction {
    /// Continue with default generation, applying modifications
    Continue,
    /// Skip default generation (visitor provides everything)
    Skip,
}

impl Default for VisitAction {
    fn default() -> (r: Self)
        ensures
            r == VisitAction::Continue,
    {
        VisitAction::Continue
    }
}

/// Look a key up in an association list: the value of the first entry
/// whose key has the given characters, if any.
pub open spec fn keyed_lookup<F>(s: Seq<(String, F)>, key: Seq<char>) -> Option<F>
    decreases s.len(),
{
    if s.len() == 0 {
        None
    } else if s.first().0@ == key {
        Some(s.first().1)
    } else {
        keyed_lookup(s.drop_first(), key)
    }
}

/// Appending an entry to an association list leaves every present key
/// bound as before; a key that was absent is afterwards bound to the new
/// entry's value exactly when it is the new entry's key.
pub proof fn lemma_keyed_lookup_push<F>(s: Seq<(String, F)>, p: (String, F), key: Seq<char>)
    ensures
        keyed_lookup(s, key) is Some ==> keyed_lookup(s.push(p), key) == keyed_lookup(s, key),
        keyed_lookup(s, key) is None && p.0@ == key ==> keyed_lookup(s.push(p), key) == Some(p.1),
        keyed_lookup(s, key) is None && p.0@ != key ==> keyed_lookup(s.push(p), key) is None,
    decreases s.len(),
{
    if s.len() == 0 {
        assert(s.push(p).first() == p);
        assert(s.push(p).drop_first() =~= Seq::<(String, F)>::empty());
        if p.0@ != key {
            assert(keyed_lookup(Seq::<(String, F)>::empty(), key) is None);
            assert(keyed_lookup(s.push(p), key) == keyed_lookup(s.push(p).drop_first(), key));
        }
    } else {
        assert(s.push(p).first() == s.first());
        assert(s.push(p).drop_first() =~= s.drop_first().push(p));
        lemma_keyed_lookup_push(s.drop_first(), p, key);
    }
}

/// The first entry carrying a key determines that key's binding.
pub proof fn lemma_keyed_lookup_at_index<F>(s: Seq<(String, F)>, i: int)
    requires
        0 <= i < s.len(),
        forall|j: int| 0 <= j < i ==> s[j].0@ != s[i].0@,
    ensures
        keyed_lookup(s, s[i].0@) == Some(s[i].1),
    decreases i,
{
    if i == 0 {
    } else {
        assert(s.drop_first()[i - 1] == s[i]);
        assert(forall|j: int| 0 <= j < i - 1 ==> s.drop_first()[j] == s[j + 1]);
        lemma_keyed_lookup_at_index(s.drop_first(), i - 1);
    }
}

/// A key carried by no entry is bound to nothing.
pub proof fn lemma_keyed_lookup_absent<F>(s: Seq<(String, F)>, key: Seq<char>)
    requires
        forall|j: int| 0 <= j < s.len() ==> s[j].0@ != key,
    ensures
        keyed_lookup(s, key) is None,
    decreases s.len(),
{
    if s.len() > 0 {
        assert(forall|j: int| 0 <= j < s.drop_first().len() ==> s.drop_first()[j] == s[j + 1]);
        lemma_keyed_lookup_absent(s.drop_first(), key);
    }
}

/// Replacing the value of the first entry that carries a key rebinds that
/// key and no other: every different key stays bound as before.
pub proof fn lemma_keyed_lookup_update<F>(s: Seq<(String, F)>, i: int, f: F)
    requires
        0 <= i < s.len(),
        forall|j: int| 0 <= j < i ==> s[j].0@ != s[i].0@,
    ensures
        keyed_lookup(s.update(i, (s[i].0, f)), s[i].0@) == Some(f),
        forall|k: Seq<char>|
            k != s[i].0@ ==> keyed_lookup(s.update(i, (s[i].0, f)), k) == keyed_lookup(s, k),
    decreases i,
{
    let t = s.update(i, (s[i].0, f));
    if i == 0 {
        assert(t.first() == (s[0].0, f));
        assert(t.drop_first() =~= s.drop_first());
    } else {
        assert(t.first() == s.first());
        assert(s.drop_first()[i - 1] == s[i]);
        assert(forall|j: int| 0 <= j < i - 1 ==> s.drop_first()[j] == s[j + 1]);
        lemma_keyed_lookup_update(s.drop_first(), i - 1, f);
        assert(t.drop_first() =~= s.drop_first().update(i - 1, (s[i].0, f)));
        assert forall|k: Seq<char>| k != s[i].0@ implies keyed_lookup(t, k) == keyed_lookup(
            s,
            k,
        ) by {
            if t.first().0@ != k {
                assert(keyed_lookup(t, k) == keyed_lookup(t.drop_first(), k));
                assert(keyed_lookup(s, k) == keyed_lookup(s.drop_first(), k));
            }
        }
    }
}

/// The attribute list recorded for a key, or the empty list where the key
/// has no entry yet.
pub open spec fn field_attrs_at(s: Seq<(String, FieldContribution)>, key: Seq<char>) -> Seq<
    String,
> {
    match keyed_lookup(s, key) {
        Some(f) => f.attributes@,
        None => Seq::empty(),
    }
}

/// The attribute list recorded for a key, or the empty list where the key
/// has no entry yet.
pub open spec fn case_attrs_at(s: Seq<(String, VariantCaseContribution)>, key: Seq<char>) -> Seq<
    String,
> {
    match keyed_lookup(s, key) {
        Some(c) => c.attributes@,
        None => Seq::empty(),
    }
}

/// Find the first entry of an association list whose key equals `key`.
pub(crate) fn find_key_index<F>(entries: &Vec<(String, F)>, key: &String) -> (r: Option<usize>)
    ensures
        match r {
            Some(i) => i < entries@.len() && entries@[i as int].0@ == key@ && forall|j: int|
                0 <= j < i ==> entries@[j].0@ != key@,
            None => forall|j: int| 0 <= j < entries@.len() ==> entries@[j].0@ != key@,
        },
{
    let n = entries.len();
    let mut i: usize = 0;
    while i < n
        invariant
            i <= n,
            n == entries@.len(),
            forall|j: int| 0 <= j < i ==> entries@[j].0@ != key@,
        decreases n - i,
    {
        if entries[i].0 == *key {
            return Some(i);
        }
        i = i + 1;
    }
    None
}

/// Complete result from processing the annotations on one schema node.
/// This aggregates the contributions of every visitor that matched the
/// node and is consumed once by the emitter.
#[derive(Debug, Clone)]
pub struct AnnotationResult {
    /// Type-level contributions
    pub type_contrib: TypeContribution,
    /// Field-specific contributions, keyed by field name
    pub field_contribs: Vec<(String, FieldContribution)>,
    /// Case-specific contributions, keyed by case name
    pub case_contribs: Vec<(String, VariantCaseContribution)>,
    /// Function-level contributions
    pub function_contrib: FunctionContribution,
    /// Module-level contributions
    pub module_contrib: ModuleContribution,
    /// Action to take (continue with generation or skip it)
    pub action: VisitAction,
}

impl AnnotationResult {
    /// True when no contribution of any kind has been collected.
    pub open spec fn spec_is_empty(&self) -> bool {
        self.type_contrib.spec_is_empty() && self.field_contribs@.len() == 0
            && self.case_contribs@.len() == 0 && self.function_contrib.spec_is_empty()
            && self.module_contrib.spec_is_empty()
    }

    /// Create a new empty result
    pub fn new() -> (r: Self)
        ensures
            r.spec_is_empty(),
            r.action == VisitAction::Continue,
            r.type_contrib.derives@ == Seq::<String>::empty(),
            r.type_contrib.attributes@ == Seq::<String>::empty(),
            r.field_contribs@ == Seq::<(String, FieldContribution)>::empty(),
            r.case_contribs@ == Seq::<(String, VariantCaseContribution)>::empty(),
            r.function_contrib.attributes@ == Seq::<String>::empty(),
            r.function_contrib.body_prefix@ == Seq::<String>::empty(),
            r.module_contrib.use_statements@ == Seq::<String>::empty(),
            r.module_contrib.additional_code@ == Seq::<String>::empty(),
    {
        AnnotationResult {
            type_contrib: TypeContribution::new(),
            field_contribs: Vec::new(),
            case_contribs: Vec::new(),
            function_contrib: FunctionContribution::new(),
            module_contrib: ModuleContribution::new(),
            action: VisitAction::Continue,
        }
    }

    /// Create a result that continues with generation
    pub fn continue_with() -> (r: Self)
        ensures
            r.spec_is_empty(),
            r.action == VisitAction::Continue,
    {
        AnnotationResult::new()
    }

    /// Create a result that skips generation
    pub fn skip() -> (r: Self)
        ensures
            r.spec_is_empty(),
            r.action == VisitAction::Skip,
    {
        let mut r = AnnotationResult::new();
        r.action = VisitAction::Skip;
        r
    }

    /// Add a derive to the type contribution
    pub fn add_derive(&mut self, derive: String)
        ensures
            final(self).type_contrib.derives@ == old(self).type_contrib.derives@.push(derive),
            final(self).type_contrib.attributes@ == old(self).type_contrib.attributes@,
            final(self).field_contribs@ == old(self).field_contribs@,
            final(self).case_contribs@ == old(self).case_contribs@,
            final(self).function_contrib == old(self).function_contrib,
            final(self).module_contrib == old(self).module_contrib,
            final(self).action == old(self).action,
    {
        self.type_contrib.add_derive(derive);
    }

    /// Add an attribute to the type contribution
    pub fn add_attribute(&mut self, attr: String)
        ensures
            final(self).type_contrib.attributes@ == old(self).type_contrib.attributes@.push(attr),
            final(self).type_contrib.derives@ == old(self).type_contrib.derives@,
            final(self).field_contribs@ == old(self).field_contribs@,
            final(self).case_contribs@ == old(self).case_contribs@,
            final(self).function_contrib == old(self).function_contrib,
            final(self).module_contrib == old(self).module_contrib,
            final(self).action == old(self).action,
    {
        self.type_contrib.add_attribute(attr);
    }

    /// Merge a whole field contribution under a field name: its attributes
    /// are appended after those already recorded for that field, and every
    /// other field's entry is untouched.
    pub fn merge_field_contribution(&mut self, field_name: String, c: FieldContribution)
        ensures
            field_attrs_at(final(self).field_contribs@, field_name@) == field_attrs_at(
                old(self).field_contribs@,
                field_name@,
            ) + c.attributes@,
            keyed_lookup(final(self).field_contribs@, field_name@) is Some,
            forall|k: Seq<char>|
                k != field_name@ ==> keyed_lookup(final(self).field_contribs@, k) == keyed_lookup(
                    old(self).field_contribs@,
                    k,
                ),
            final(self).type_contrib == old(self).type_contrib,
            final(self).case_contribs@ == old(self).case_contribs@,
            final(self).function_contrib == old(self).function_contrib,
            final(self).module_contrib == old(self).module_contrib,
            final(self).action == old(self).action,
    {
        let ghost entries0 = self.field_contribs@;
        match find_key_index(&self.field_contribs, &field_name) {
            Some(i) => {
                let mut pair = self.field_contribs.remove(i);
                pair.1.merge(c);
                self.field_contribs.insert(i, pair);
                proof {
                    assert(self.field_contribs@ =~= entries0.update(i as int, pair));
                    assert(pair.0 == entries0[i as int].0);
                    lemma_keyed_lookup_at_index(entries0, i as int);
                    lemma_keyed_lookup_update(entries0, i as int, pair.1);
                }
            },
            None => {
                let mut f = FieldContribution::new();
                f.merge(c);
                self.field_contribs.push((field_name, f));
                proof {
                    lemma_keyed_lookup_absent(entries0, field_name@);
                    assert forall|k: Seq<char>| true implies keyed_lookup(
                        self.field_contribs@,
                        k,
                    ) == if k == field_name@ {
                        Some(f)
                    } else {
                        keyed_lookup(entries0, k)
                    } by {
                        lemma_keyed_lookup_push(entries0, (field_name, f), k);
                        if k == field_name@ {
                        } else if keyed_lookup(entries0, k) is None {
                        }
                    }
                    assert(f.attributes@ =~= Seq::<String>::empty() + c.attributes@);
                }
            },
        }
    }

    /// Merge a whole case contribution under a case name: its attributes
    /// are appended after those already recorded for that case, and every
    /// other case's entry is untouched.
    pub fn merge_case_contribution(&mut self, case_name: String, c: VariantCaseContribution)
        ensures
            case_attrs_at(final(self).case_contribs@, case_name@) == case_attrs_at(
                old(self).case_contribs@,
                case_name@,
            ) + c.attributes@,
            keyed_lookup(final(self).case_contribs@, case_name@) is Some,
            forall|k: Seq<char>|
                k != case_name@ ==> keyed_lookup(final(self).case_contribs@, k) == keyed_lookup(
                    old(self).case_contribs@,
                    k,
                ),
            final(self).type_contrib == old(self).type_contrib,
            final(self).field_contribs@ == old(self).field_contribs@,
            final(self).function_contrib == old(self).function_contrib,
            final(self).module_contrib == old(self).module_contrib,
            final(self).action == old(self).action,
    {
        let ghost entries0 = self.case_contribs@;
        match find_key_index(&self.case_contribs, &case_name) {
            Some(i) => {
                let mut pair = self.case_contribs.remove(i);
                pair.1.merge(c);
                self.case_contribs.insert(i, pair);
                proof {
                    assert(self.case_contribs@ =~= entries0.update(i as int, pair));
                    assert(pair.0 == entries0[i as int].0);
                    lemma_keyed_lookup_at_index(entries0, i as int);
                    lemma_keyed_lookup_update(entries0, i as int, pair.1);
                }
            },
            None => {
                let mut v = VariantCaseContribution::new();
                v.merge(c);
                self.case_contribs.push((case_name, v));
                proof {
                    lemma_keyed_lookup_absent(entries0, case_name@);
                    assert forall|k: Seq<char>| true implies keyed_lookup(
                        self.case_contribs@,
                        k,
                    ) == if k == case_name@ {
                        Some(v)
                    } else {
                        keyed_lookup(entries0, k)
                    } by {
                        lemma_keyed_lookup_push(entries0, (case_name, v), k);
                        if k == case_name@ {
                        } else if keyed_lookup(entries0, k) is None {
                        }
                    }
                    assert(v.attributes@ =~= Seq::<String>::empty() + c.attributes@);
                }
            },
        }
    }

    /// Add an attribute for a specific field
    pub fn add_field_attribute(&mut self, field_name: String, attr: String)
        ensures
            field_attrs_at(final(self).field_contribs@, field_name@) == field_attrs_at(
                old(self).field_contribs@,
                field_name@,
            ).push(attr),
            keyed_lookup(final(self).field_contribs@, field_name@) is Some,
            forall|k: Seq<char>|
                k != field_name@ ==> keyed_lookup(final(self).field_contribs@, k) == keyed_lookup(
                    old(self).field_contribs@,
                    k,
                ),
            final(self).type_contrib == old(self).type_contrib,
            final(self).case_contribs@ == old(self).case_contribs@,
            final(self).function_contrib == old(self).function_contrib,
            final(self).module_contrib == old(self).module_contrib,
            final(self).action == old(self).action,
    {
        let mut f = FieldContribution::new();
        f.add_attribute(attr);
        let ghost prior = field_attrs_at(self.field_contribs@, field_name@);
        self.merge_field_contribution(field_name, f);
        proof {
            assert(prior + f.attributes@ =~= prior.push(attr));
        }
    }

    /// Add an attribute for a specific case
    pub fn add_case_attribute(&mut self, case_name: String, attr: String)
        ensures
            case_attrs_at(final(self).case_contribs@, case_name@) == case_attrs_at(
                old(self).case_contribs@,
                case_name@,
            ).push(attr),
            keyed_lookup(final(self).case_contribs@, case_name@) is Some,
            forall|k: Seq<char>|
                k != case_name@ ==> keyed_lookup(final(self).case_contribs@, k) == keyed_lookup(
                    old(self).case_contribs@,
                    k,
                ),
            final(self).type_contrib == old(self).type_contrib,
            final(self).field_contribs@ == old(self).field_contribs@,
            final(self).function_contrib == old(self).function_contrib,
            final(self).module_contrib == old(self).module_contrib,
            final(self).action == old(self).action,
    {
        let mut c = VariantCaseContribution::new();
        c.add_attribute(attr);
        let ghost prior = case_attrs_at(self.case_contribs@, case_name@);
        self.merge_case_contribution(case_name, c);
        proof {
            assert(prior + c.attributes@ =~= prior.push(attr));
        }
    }

    /// Look up the contribution recorded for a field name.
    pub fn field_contrib(&self, name: &str) -> (r: Option<&FieldContribution>)
        ensures
            match r {
                Some(f) => keyed_lookup(self.field_contribs@, name@) == Some(*f),
                None => keyed_lookup(self.field_contribs@, name@) is None,
            },
    {
        let key = name.to_owned();
        match find_key_index(&self.field_contribs, &key) {
            Some(i) => {
                proof {
                    lemma_keyed_lookup_at_index(self.field_contribs@, i as int);
                }
                Some(&self.field_contribs[i].1)
            },
            None => {
                proof {
                    lemma_keyed_lookup_absent(self.field_contribs@, name@);
                }
                None
            },
        }
    }

    /// Look up the contribution recorded for a case name.
    pub fn case_contrib(&self, name: &str) -> (r: Option<&VariantCaseContribution>)
        ensures
            match r {
                Some(c) => keyed_lookup(self.case_contribs@, name@) == Some(*c),
                None => keyed_lookup(self.case_contribs@, name@) is None,
            },
    {
        let key = name.to_owned();
        match find_key_index(&self.case_contribs, &key) {
            Some(i) => {
                proof {
                    lemma_keyed_lookup_at_index(self.case_contribs@, i as int);
                }
                Some(&self.case_contribs[i].1)
            },
            None => {
                proof {
                    lemma_keyed_lookup_absent(self.case_contribs@, name@);
                }
                None
            },
        }
    }

    /// Add code to prepend to function body
    pub fn add_body_prefix(&mut self, code: String)
        ensures
            final(self).function_contrib.body_prefix@ == old(
                self,
            ).function_contrib.body_prefix@.push(code),
            final(self).function_contrib.attributes@ == old(self).function_contrib.attributes@,
            final(self).type_contrib == old(self).type_contrib,
            final(self).field_contribs@ == old(self).field_contribs@,
            final(self).case_contribs@ == old(self).case_contribs@,
            final(self).module_contrib == old(self).module_contrib,
            final(self).action == old(self).action,
    {
        self.function_contrib.add_body_prefix(code);
    }

    /// Add a function attribute
    pub fn add_function_attribute(&mut self, attr: String)
        ensures
            final(self).function_contrib.attributes@ == old(
                self,
            ).function_contrib.attributes@.push(attr),
            final(self).function_contrib.body_prefix@ == old(self).function_contrib.body_prefix@,
            final(self).type_contrib == old(self).type_contrib,
            final(self).field_contribs@ == old(self).field_contribs@,
            final(self).case_contribs@ == old(self).case_contribs@,
            final(self).module_contrib == old(self).module_contrib,
            final(self).action == old(self).action,
    {
        self.function_contrib.add_attribute(attr);
    }

    /// Merge a type contribution: entries append after those already
    /// collected, in invocation order.
    pub fn merge_type_contribution(&mut self, c: TypeContribution)
        ensures
            final(self).type_contrib.derives@ == old(self).type_contrib.derives@ + c.derives@,
            final(self).type_contrib.attributes@ == old(self).type_contrib.attributes@
                + c.attributes@,
            final(self).field_contribs@ == old(self).field_contribs@,
            final(self).case_contribs@ == old(self).case_contribs@,
            final(self).function_contrib == old(self).function_contrib,
            final(self).module_contrib == old(self).module_contrib,
            final(self).action == old(self).action,
    {
        self.type_contrib.merge(c);
    }

    /// Merge a function contribution: entries append after those already
    /// collected, in invocation order.
    pub fn merge_function_contribution(&mut self, c: FunctionContribution)
        ensures
            final(self).function_contrib.attributes@ == old(self).function_contrib.attributes@
                + c.attributes@,
            final(self).function_contrib.body_prefix@ == old(self).function_contrib.body_prefix@
                + c.body_prefix@,
            final(self).type_contrib == old(self).type_contrib,
            final(self).field_contribs@ == old(self).field_contribs@,
            final(self).case_contribs@ == old(self).case_contribs@,
            final(self).module_contrib == old(self).module_contrib,
            final(self).action == old(self).action,
    {
        self.function_contrib.merge(c);
    }

    /// Merge a module contribution: entries append after those already
    /// collected, in invocation order.
    pub fn merge_module_contribution(&mut self, c: ModuleContribution)
        ensures
            final(self).module_contrib.use_statements@ == old(self).module_contrib.use_statements@
                + c.use_statements@,
            final(self).module_contrib.additional_code@ == old(
                self,
            ).module_contrib.additional_code@ + c.additional_code@,
            final(self).type_contrib == old(self).type_contrib,
            final(self).field_contribs@ == old(self).field_contribs@,
            final(self).case_contribs@ == old(self).case_contribs@,
            final(self).function_contrib == old(self).function_contrib,
            final(self).action == old(self).action,
    {
        self.module_contrib.merge(c);
    }

    /// Merge a requested action: if any visitor requests `Skip` for a
    /// node, `Skip` wins over `Continue`.
    pub fn merge_action(&mut self, a: VisitAction)
        ensures
            final(self).action == if old(self).action == VisitAction::Skip || a
                == VisitAction::Skip {
                VisitAction::Skip
            } else {
                VisitAction::Continue
            },
            final(self).type_contrib == old(self).type_contrib,
            final(self).field_contribs@ == old(self).field_contribs@,
            final(self).case_contribs@ == old(self).case_contribs@,
            final(self).function_contrib == old(self).function_contrib,
            final(self).module_contrib == old(self).module_contrib,
    {
        if self.action == VisitAction::Skip || a == VisitAction::Skip {
            self.action = VisitAction::Skip;
        } else {
            self.action = VisitAction::Continue;
        }
    }

    /// Check if this result has any modifications
    pub fn is_empty(&self) -> (r: bool)
        ensures
            r == self.spec_is_empty(),
    {
        self.type_contrib.is_empty() && self.field_contribs.is_empty()
            && self.case_contribs.is_empty() && self.function_contrib.is_empty()
            && self.module_contrib.is_empty()
    }
}

} // verus!
