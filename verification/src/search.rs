//! First and last matches in sequences, as spec functions with their lemmas.
use vstd::prelude::*;

verus! {

/// The first index at or after `i` whose element satisfies `p`.
pub open spec fn find_from<A>(s: Seq<A>, p: spec_fn(A) -> bool, i: int) -> Option<int>
    decreases s.len() - i,
{
    if i < 0 || i >= s.len() {
        None
    } else if p(s[i]) {
        Some(i)
    } else {
        find_from(s, p, i + 1)
    }
}

/// The first index whose element satisfies `p`.
pub open spec fn find_first<A>(s: Seq<A>, p: spec_fn(A) -> bool) -> Option<int> {
    find_from(s, p, 0)
}

/// The last index below `k` whose element satisfies `p`.
pub open spec fn find_last_below<A>(s: Seq<A>, p: spec_fn(A) -> bool, k: int) -> Option<int>
    decreases k,
{
    if k <= 0 {
        None
    } else if p(s[k - 1]) {
        Some(k - 1)
    } else {
        find_last_below(s, p, k - 1)
    }
}

/// What `find_from` gives: the least matching index from `i` on, or none.
pub proof fn lemma_find_from<A>(s: Seq<A>, p: spec_fn(A) -> bool, i: int)
    requires
        0 <= i,
    ensures
        match find_from(s, p, i) {
            Some(k) => i <= k < s.len() && p(s[k]) && forall|j: int| i <= j < k ==> !p(#[trigger] s[j]),
            None => forall|j: int| i <= j < s.len() ==> !p(#[trigger] s[j]),
        },
    decreases s.len() - i,
{
    if i < s.len() && !p(s[i]) {
        lemma_find_from(s, p, i + 1);
    }
}

/// What `find_last_below` gives: the greatest matching index below `k`, or none.
pub proof fn lemma_find_last_below<A>(s: Seq<A>, p: spec_fn(A) -> bool, k: int)
    requires
        k <= s.len(),
    ensures
        match find_last_below(s, p, k) {
            Some(j) => 0 <= j < k && p(s[j]) && forall|q: int| j < q < k ==> !p(#[trigger] s[q]),
            None => forall|q: int| 0 <= q < k ==> !p(#[trigger] s[q]),
        },
    decreases k,
{
    if k > 0 && !p(s[k - 1]) {
        lemma_find_last_below(s, p, k - 1);
    }
}

/// A match at `k` with none before it is the first match.
pub proof fn lemma_find_first_is<A>(s: Seq<A>, p: spec_fn(A) -> bool, k: int)
    requires
        0 <= k < s.len(),
        p(s[k]),
        forall|j: int| 0 <= j < k ==> !p(#[trigger] s[j]),
    ensures
        find_first(s, p) == Some(k),
{
    lemma_find_from(s, p, 0);
}

/// With no match anywhere there is no first match.
pub proof fn lemma_find_first_none<A>(s: Seq<A>, p: spec_fn(A) -> bool)
    requires
        forall|j: int| 0 <= j < s.len() ==> !p(#[trigger] s[j]),
    ensures
        find_first(s, p) is None,
{
    lemma_find_from(s, p, 0);
}

} // verus!
