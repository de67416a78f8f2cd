//! Annotation extraction.
//!
//! A schema node carries annotation metadata as a list of
//! `(target, payload)` pairs, in source order; several pairs may share a
//! target. The queries here are pure, read-only views of that list: the
//! payloads attached for one target, whether a target is present at all,
//! and, for annotations whose payloads are themselves key-value tables,
//! one combined table folded over all occurrences of a target.

use vstd::prelude::*;

verus! {

use crate::return_types::find_key_index;

/// Stability and annotation metadata attached to one schema node.
///
/// This is the library's own model of the schema's attribute metadata:
/// the parsed schema is produced outside this crate, and a caller builds
/// one `Stability` value per node from it. Only the `Annotated` form
/// carries annotations; the other forms record plain stability levels.
#[derive(Debug, Clone)]
pub enum Stability {
    /// The node carries no stability or annotation metadata.
    Unknown,
    /// The node is tagged as unstable.
    Unstable,
    /// The node is tagged as stable.
    Stable,
    /// The node carries `(target, payload)` annotation pairs, in source
    /// order.
    Annotated { annotations: Vec<(String, String)> },
}

/// The annotation pairs a stability value carries: those of the
/// `Annotated` form, and none otherwise.
pub open spec fn spec_annotations(stability: &Stability) -> Seq<(String, String)> {
    match stability {
        Stability::Annotated { annotations } => annotations@,
        _ => Seq::empty(),
    }
}

/// The payloads attached for one target, in source order.
pub open spec fn values_for_spec(anns: Seq<(String, String)>, target: Seq<char>) -> Seq<String>
    decreases anns.len(),
{
    if anns.len() == 0 {
        Seq::empty()
    } else {
        let prefix = values_for_spec(anns.drop_last(), target);
        if anns.last().0@ == target {
            prefix.push(anns.last().1)
        } else {
            prefix
        }
    }
}

/// Whether any annotation pair carries the given target.
pub open spec fn has_target_spec(anns: Seq<(String, String)>, target: Seq<char>) -> bool {
    exists|i: int| 0 <= i < anns.len() && anns[i].0@ == target
}

/// Extract all annotation payloads for a specific target language from a
/// node's stability metadata: the values of the pairs whose target
/// matches, in source order, and nothing else.
pub fn get_annotations_for_language(stability: &Stability, language: &str) -> (r: Vec<String>)
    ensures
        r@ == values_for_spec(spec_annotations(stability), language@),
{
    match stability {
        Stability::Annotated { annotations } => {
            let lang = language.to_owned();
            let n = annotations.len();
            let mut out: Vec<String> = Vec::new();
            let mut i: usize = 0;
            while i < n
                invariant
                    i <= n,
                    n == annotations@.len(),
                    lang@ == language@,
                    out@ == values_for_spec(annotations@.take(i as int), language@),
                decreases n - i,
            {
                let pair = &annotations[i];
                if pair.0 == lang {
                    out.push(pair.1.clone());
                }
                proof {
                    assert(annotations@.take(i as int + 1).drop_last() =~= annotations@.take(
                        i as int,
                    ));
                    assert(annotations@.take(i as int + 1).last() == annotations@[i as int]);
                }
                i = i + 1;
            }
            proof {
                assert(annotations@.take(n as int) =~= annotations@);
            }
            out
        },
        _ => Vec::new(),
    }
}

/// Get all annotation pairs from a node's stability metadata, as
/// `(target, payload)` pairs in source order.
pub fn get_all_annotations(stability: &Stability) -> (r: Vec<(String, String)>)
    ensures
        r@ == spec_annotations(stability),
{
    match stability {
        Stability::Annotated { annotations } => {
            let n = annotations.len();
            let mut out: Vec<(String, String)> = Vec::new();
            let mut i: usize = 0;
            while i < n
                invariant
                    i <= n,
                    n == annotations@.len(),
                    out@ == annotations@.take(i as int),
                decreases n - i,
            {
                let pair = &annotations[i];
                out.push((pair.0.clone(), pair.1.clone()));
                proof {
                    assert(annotations@.take(i as int + 1) =~= annotations@.take(i as int).push(
                        annotations@[i as int],
                    ));
                }
                i = i + 1;
            }
            proof {
                assert(annotations@.take(n as int) =~= annotations@);
            }
            out
        },
        _ => Vec::new(),
    }
}

/// Check whether any annotation exists for a specific target language.
pub fn has_annotations_for_language(stability: &Stability, language: &str) -> (r: bool)
    ensures
        r == has_target_spec(spec_annotations(stability), language@),
{
    match stability {
        Stability::Annotated { annotations } => {
            let lang = language.to_owned();
            let n = annotations.len();
            let mut i: usize = 0;
            while i < n
                invariant
                    i <= n,
                    n == annotations@.len(),
                    lang@ == language@,
                    spec_annotations(stability) == annotations@,
                    forall|j: int| 0 <= j < i ==> annotations@[j].0@ != language@,
                decreases n - i,
            {
                if annotations[i].0 == lang {
                    proof {
                        assert(annotations@[i as int].0@ == language@);
                        assert(has_target_spec(annotations@, language@));
                    }
                    return true;
                }
                i = i + 1;
            }
            false
        },
        _ => false,
    }
}

/// Fold one key-value entry into a table: where the key is already bound,
/// the first entry carrying it keeps its place and takes the new value;
/// where it is not, the entry is appended at the end.
pub open spec fn fold_in(acc: Seq<(String, String)>, e: (String, String)) -> Seq<(String, String)>
    decreases acc.len(),
{
    if acc.len() == 0 {
        seq![e]
    } else if acc.first().0@ == e.0@ {
        seq![(acc.first().0, e.1)] + acc.drop_first()
    } else {
        seq![acc.first()] + fold_in(acc.drop_first(), e)
    }
}

/// Fold a list of key-value entries into a table, in order: a later
/// entry's key silently overwrites an earlier one's value on collision.
pub open spec fn fold_entries(entries: Seq<(String, String)>) -> Seq<(String, String)>
    decreases entries.len(),
{
    if entries.len() == 0 {
        Seq::empty()
    } else {
        fold_in(fold_entries(entries.drop_last()), entries.last())
    }
}

/// The key-value entries of all map payloads attached for one target,
/// concatenated in source order.
pub open spec fn relevant_entries(
    anns: Seq<(String, Vec<(String, String)>)>,
    target: Seq<char>,
) -> Seq<(String, String)>
    decreases anns.len(),
{
    if anns.len() == 0 {
        Seq::empty()
    } else {
        let prefix = relevant_entries(anns.drop_last(), target);
        if anns.last().0@ == target {
            prefix + anns.last().1@
        } else {
            prefix
        }
    }
}

/// Folding in a key that is already bound rebinds the first entry that
/// carries it, in place, and changes nothing else.
proof fn lemma_fold_in_present(acc: Seq<(String, String)>, i: int, e: (String, String))
    requires
        0 <= i < acc.len(),
        acc[i].0@ == e.0@,
        forall|j: int| 0 <= j < i ==> acc[j].0@ != e.0@,
    ensures
        fold_in(acc, e) == acc.update(i, (acc[i].0, e.1)),
    decreases i,
{
    if i == 0 {
        assert(fold_in(acc, e) =~= acc.update(0, (acc[0].0, e.1)));
    } else {
        assert(acc.drop_first()[i - 1] == acc[i]);
        assert(forall|j: int| 0 <= j < i - 1 ==> acc.drop_first()[j] == acc[j + 1]);
        lemma_fold_in_present(acc.drop_first(), i - 1, e);
        assert(seq![acc.first()] + acc.drop_first().update(i - 1, (acc[i].0, e.1)) =~= acc.update(
            i,
            (acc[i].0, e.1),
        ));
    }
}

/// Folding in a key that is bound nowhere appends the entry at the end.
proof fn lemma_fold_in_absent(acc: Seq<(String, String)>, e: (String, String))
    requires
        forall|j: int| 0 <= j < acc.len() ==> acc[j].0@ != e.0@,
    ensures
        fold_in(acc, e) == acc.push(e),
    decreases acc.len(),
{
    if acc.len() == 0 {
        assert(fold_in(acc, e) =~= acc.push(e));
    } else {
        assert(forall|j: int|
            0 <= j < acc.drop_first().len() ==> acc.drop_first()[j] == acc[j + 1]);
        lemma_fold_in_absent(acc.drop_first(), e);
        assert(seq![acc.first()] + acc.drop_first().push(e) =~= acc.push(e));
    }
}

/// Combine the map payloads attached for one target into a single
/// key-value table, folding all occurrences for that target in source
/// order: a later occurrence's keys silently overwrite earlier values on
/// collision, each key keeps the place of its first appearance, and keys
/// for other targets contribute nothing.
pub fn combined_map_for(
    annotations: &Vec<(String, Vec<(String, String)>)>,
    target: &str,
) -> (r: Vec<(String, String)>)
    ensures
        r@ == fold_entries(relevant_entries(annotations@, target@)),
{
    let t = target.to_owned();
    let mut out: Vec<(String, String)> = Vec::new();
    let n = annotations.len();
    let mut i: usize = 0;
    while i < n
        invariant
            i <= n,
            n == annotations@.len(),
            t@ == target@,
            out@ == fold_entries(relevant_entries(annotations@.take(i as int), target@)),
        decreases n - i,
    {
        let pair = &annotations[i];
        let ghost rel = relevant_entries(annotations@.take(i as int), target@);
        if pair.0 == t {
            let m = pair.1.len();
            let mut j: usize = 0;
            while j < m
                invariant
                    j <= m,
                    m == pair.1@.len(),
                    out@ == fold_entries(rel + pair.1@.take(j as int)),
                decreases m - j,
            {
                let e = &pair.1[j];
                let ghost prev = out@;
                let ghost entries = rel + pair.1@.take(j as int);
                match find_key_index(&out, &e.0) {
                    Some(k) => {
                        let (k0, _) = out.remove(k);
                        out.insert(k, (k0, e.1.clone()));
                        proof {
                            lemma_fold_in_present(prev, k as int, *e);
                            assert(out@ =~= prev.update(k as int, (prev[k as int].0, e.1)));
                        }
                    },
                    None => {
                        out.push((e.0.clone(), e.1.clone()));
                        proof {
                            lemma_fold_in_absent(prev, *e);
                            assert(out@ =~= prev.push(*e));
                        }
                    },
                }
                proof {
                    assert(rel + pair.1@.take(j as int + 1) =~= entries.push(pair.1@[j as int]));
                    assert(entries.push(pair.1@[j as int]).drop_last() =~= entries);
                    assert(entries.push(pair.1@[j as int]).last() == pair.1@[j as int]);
                    assert(*e == pair.1@[j as int]);
                }
                j = j + 1;
            }
            proof {
                assert(rel + pair.1@.take(m as int) =~= rel + pair.1@);
                assert(annotations@.take(i as int + 1).drop_last() =~= annotations@.take(i as int));
                assert(annotations@.take(i as int + 1).last() == annotations@[i as int]);
            }
        } else {
            proof {
                assert(annotations@.take(i as int + 1).drop_last() =~= annotations@.take(i as int));
                assert(annotations@.take(i as int + 1).last() == annotations@[i as int]);
            }
        }
        i = i + 1;
    }
    proof {
        assert(annotations@.take(n as int) =~= annotations@);
    }
    out
}

/// Extract the annotation payloads for the `rust` target.
pub fn get_rust_annotations(stability: &Stability) -> (r: Vec<String>)
    ensures
        r@ == values_for_spec(spec_annotations(stability), "rust"@),
{
    get_annotations_for_language(stability, "rust")
}

} // verus!
