//! First-match searches in sequences.

use vstd::prelude::*;

verus! {

/// `i` is the first index of `s` whose item satisfies `p`.
pub open spec fn is_first_match<T>(s: Seq<T>, i: int, p: spec_fn(T) -> bool) -> bool {
    &&& 0 <= i < s.len()
    &&& p(s[i])
    &&& forall|j: int| 0 <= j < i ==> !p(#[trigger] s[j])
}

/// No item of `s` satisfies `p`.
pub open spec fn no_match<T>(s: Seq<T>, p: spec_fn(T) -> bool) -> bool {
    forall|j: int| 0 <= j < s.len() ==> !p(#[trigger] s[j])
}

/// `r` is the result of searching `s` from the front for an item that
/// satisfies `p`: the first such index, or `None` when there is none.
pub open spec fn is_search_result<T>(s: Seq<T>, r: Option<usize>, p: spec_fn(T) -> bool) -> bool {
    match r {
        Some(i) => is_first_match(s, i as int, p),
        None => no_match(s, p),
    }
}

/// A search from the front has a single possible result.
pub proof fn lemma_search_result_unique<T>(
    s: Seq<T>,
    r1: Option<usize>,
    r2: Option<usize>,
    p: spec_fn(T) -> bool,
)
    requires
        is_search_result(s, r1, p),
        is_search_result(s, r2, p),
    ensures
        r1 == r2,
{
    match (r1, r2) {
        (Some(i), Some(k)) => {
            if i < k {
                assert(!p(s[i as int]));
            } else if k < i {
                assert(!p(s[k as int]));
            }
        },
        (Some(i), None) => {
            assert(!p(s[i as int]));
        },
        (None, Some(k)) => {
            assert(!p(s[k as int]));
        },
        (None, None) => {},
    }
}

} // verus!
