//! Binary search over a sorted sequence of `i32` values.
//!
//! The search keeps a half-open window `[low, high)` of indices that may
//! still hold the target; the window starts as the whole sequence, the
//! midpoint is taken by integer floor division, and the window shrinks on
//! every comparison, so the loop terminates and no index ever underflows
//! (an empty sequence gives the empty window `[0, 0)` and the loop never
//! runs). The midpoint is computed as `low + (high - low) / 2`, which
//! cannot overflow.

use vstd::prelude::*;

verus! {

/// The sequence is sorted in non-decreasing order.
pub open spec fn sorted(s: Seq<i32>) -> bool {
    forall|i: int, j: int| 0 <= i <= j < s.len() ==> s[i] <= s[j]
}

/// The index that bisection of the half-open window `[lo, hi)` settles on:
/// `Some(mid)` at the first probed midpoint whose element equals `k`, and
/// `None` once the window is empty (or was no valid window at all).
pub open spec fn bisect(k: i32, s: Seq<i32>, lo: int, hi: int) -> Option<int>
    decreases hi - lo,
{
    if lo < 0 || hi > s.len() || lo >= hi {
        None
    } else {
        let mid = (lo + hi) / 2;
        if s[mid] == k {
            Some(mid)
        } else if s[mid] > k {
            bisect(k, s, lo, mid)
        } else {
            bisect(k, s, mid + 1, hi)
        }
    }
}

/// The returned index as a mathematical integer, for comparison with
/// [`bisect`].
pub open spec fn found_at(r: Option<usize>) -> Option<int> {
    match r {
        Some(i) => Some(i as int),
        None => None,
    }
}

/// What a search for `k` in `s` must report: an index holding `k`,
/// or `None` exactly when no position holds `k`.
pub open spec fn search_result(k: i32, s: Seq<i32>, r: Option<usize>) -> bool {
    match r {
        Some(i) => i < s.len() && s[i as int] == k,
        None => forall|j: int| 0 <= j < s.len() ==> s[j] != k,
    }
}

/// Perform a binary search on a sorted slice.
///
/// Returns `Some(i)` with `items[i] == k` when `k` occurs in `items`
/// (among equal elements, the index is the one bisection settles on),
/// and `None` when it does not. The empty slice always gives `None`.
pub fn binary_search(k: i32, items: &[i32]) -> (r: Option<usize>)
    requires
        sorted(items@),
    ensures
        search_result(k, items@, r),
        found_at(r) == bisect(k, items@, 0, items@.len() as int),
{
    let mut low: usize = 0;
    let mut high: usize = items.len();
    while low < high
        invariant
            sorted(items@),
            low <= high <= items@.len(),
            forall|j: int| 0 <= j < low ==> items@[j] != k,
            forall|j: int| high <= j < items@.len() ==> items@[j] != k,
            bisect(k, items@, low as int, high as int)
                == bisect(k, items@, 0, items@.len() as int),
        decreases high - low,
    {
        let middle: usize = low + (high - low) / 2;
        let current: i32 = *vstd::slice::slice_index_get(items, middle);
        if current == k {
            return Some(middle);
        } else if current > k {
            high = middle;
        } else {
            low = middle + 1;
        }
    }
    None
}

/// On the empty sequence every search reports "absent": a result that
/// meets the search contract for a sequence of length zero is `None`.
pub proof fn lemma_empty_absent(k: i32, s: Seq<i32>, r: Option<usize>)
    requires
        s.len() == 0,
        search_result(k, s, r),
    ensures
        r is None,
{
}

/// When `s` holds exactly one occurrence of `k`, at index `at`, any result
/// that meets the search contract is that index: the answer is present,
/// unique, and correct. This holds of every sequence, sorted or not.
pub proof fn lemma_unique_occurrence(k: i32, s: Seq<i32>, r: Option<usize>, at: int)
    requires
        0 <= at < s.len(),
        s[at] == k,
        forall|j: int| 0 <= j < s.len() && s[j] == k ==> j == at,
        search_result(k, s, r),
    ensures
        r == Some(at as usize),
{
    match r {
        Some(i) => {
            assert(i as int == at);
        },
        None => {
            assert(s[at] != k);
        },
    }
}

/// The search is a function of its arguments: two calls on the same target
/// and the same sequence return the same result, since each result equals
/// the one index that [`bisect`] settles on.
pub proof fn lemma_search_deterministic(
    k: i32,
    s: Seq<i32>,
    r1: Option<usize>,
    r2: Option<usize>,
)
    requires
        found_at(r1) == bisect(k, s, 0, s.len() as int),
        found_at(r2) == bisect(k, s, 0, s.len() as int),
    ensures
        r1 == r2,
{
}

} // verus!
