//! Allocation of tab identifiers: the smallest strictly positive integer that
//! is not yet taken.

use vstd::prelude::*;
use vstd::seq_lib::*;
use vstd::set_lib::*;

verus! {

/// Whether `ids` holds the value `value`.
fn contains_id(ids: &Vec<i32>, value: i32) -> (r: bool)
    ensures
        r == ids@.contains(value),
{
    let mut k: usize = 0;
    while k < ids.len()
        invariant
            k <= ids@.len(),
            forall|m: int| 0 <= m < k ==> ids@[m] != value,
        decreases ids@.len() - k,
    {
        if ids[k] == value {
            return true;
        }
        k = k + 1;
    }
    false
}

/// A sequence of length `n` cannot hold all of the `k` distinct values
/// `1 ..= k` when `k > n`: there are more values than slots.
proof fn lemma_value_range_needs_length(s: Seq<i32>, k: int)
    requires
        1 <= k <= i32::MAX,
        forall|v: i32| 1 <= v <= k ==> s.contains(v),
    ensures
        k <= s.len(),
{
    let t = s.map_values(|x: i32| x as int);
    assert forall|j: int| set_int_range(1, k + 1).contains(j) implies t.to_set().contains(
        j,
    ) by {
        let v = j as i32;
        assert(s.contains(v));
        let idx = choose|idx: int| 0 <= idx < s.len() && s[idx] == v;
        assert(t[idx] == j);
        assert(t.contains(j));
    }
    assert(set_int_range(1, k + 1).subset_of(t.to_set()));
    lemma_int_range(1, k + 1);
    broadcast use seq_to_set_is_finite;

    lemma_len_subset(set_int_range(1, k + 1), t.to_set());
    t.lemma_cardinality_of_set();
}

/// The smallest strictly positive integer that does not occur in `vec`; `1`
/// for an empty list. First-fit, not monotonic: a freed identifier is reused.
pub fn first_missing_in_sequence(vec: &Vec<i32>) -> (r: i32)
    requires
        vec@.len() < i32::MAX,
    ensures
        1 <= r,
        !vec@.contains(r),
        forall|j: i32| 1 <= j < r ==> vec@.contains(j),
{
    // Don't scan any range at all if there is nothing to check for.
    if vec.len() == 0 {
        return 1;
    }

    let n: i32 = vec.len() as i32;
    let mut i: i32 = 1;
    while i <= n
        invariant
            1 <= i <= n + 1,
            n == vec@.len(),
            vec@.len() < i32::MAX,
            forall|j: i32| 1 <= j < i ==> vec@.contains(j),
        decreases n + 1 - i,
    {
        if !contains_id(vec, i) {
            return i;
        }
        i = i + 1;
    }
    // Every value in 1 ..= n occurs among the n entries, so n + 1 cannot
    // occur as well: that would put n + 1 distinct values into n slots.
    proof {
        if vec@.contains(i) {
            lemma_value_range_needs_length(vec@, n + 1);
        }
    }
    i
}

} // verus!
