//! Searching a sequence for the first member that meets a condition.

use vstd::prelude::*;

verus! {

/// The index of the first member of `s` at or after `from` that meets `pred`; the length of
/// `s` where none does.
pub open spec fn first_match_from<T>(s: Seq<T>, pred: spec_fn(T) -> bool, from: int) -> int
    decreases s.len() - from,
{
    if from < 0 || from >= s.len() {
        s.len() as int
    } else if pred(s[from]) {
        from
    } else {
        first_match_from(s, pred, from + 1)
    }
}

/// The index of the first member of `s` that meets `pred`; the length of `s` where none does.
pub open spec fn first_match<T>(s: Seq<T>, pred: spec_fn(T) -> bool) -> int {
    first_match_from(s, pred, 0)
}

/// The first member of `s` that meets `pred`, if any does.
pub open spec fn find_first<T>(s: Seq<T>, pred: spec_fn(T) -> bool) -> Option<T> {
    if first_match(s, pred) < s.len() {
        Some(s[first_match(s, pred)])
    } else {
        None
    }
}

/// Where no member from `from` up to `at` meets `pred`, and the member at `at` does or `at` is
/// the length, the first match from `from` on is `at`.
pub proof fn lemma_first_match_from<T>(s: Seq<T>, pred: spec_fn(T) -> bool, from: int, at: int)
    requires
        0 <= from <= at <= s.len(),
        forall|j: int| from <= j < at ==> !pred(#[trigger] s[j]),
        at < s.len() ==> pred(s[at]),
    ensures
        first_match_from(s, pred, from) == at,
    decreases at - from,
{
    if from < at {
        lemma_first_match_from(s, pred, from + 1, at);
    }
}

/// Where no member before `at` meets `pred`, and the member at `at` does or `at` is the
/// length, the first match is `at`.
pub proof fn lemma_first_match<T>(s: Seq<T>, pred: spec_fn(T) -> bool, at: int)
    requires
        0 <= at <= s.len(),
        forall|j: int| 0 <= j < at ==> !pred(#[trigger] s[j]),
        at < s.len() ==> pred(s[at]),
    ensures
        first_match(s, pred) == at,
{
    lemma_first_match_from(s, pred, 0, at);
}

/// The first match lies within the sequence or is its length; no member before it meets
/// `pred`, and the member at it does.
pub proof fn lemma_first_match_is_first<T>(s: Seq<T>, pred: spec_fn(T) -> bool, from: int)
    requires
        0 <= from <= s.len(),
    ensures
        from <= first_match_from(s, pred, from) <= s.len(),
        forall|j: int| from <= j < first_match_from(s, pred, from) ==> !pred(#[trigger] s[j]),
        first_match_from(s, pred, from) < s.len() ==> pred(s[first_match_from(s, pred, from)]),
    decreases s.len() - from,
{
    if from < s.len() && !pred(s[from]) {
        lemma_first_match_is_first(s, pred, from + 1);
    }
}

} // verus!
