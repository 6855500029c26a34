//! Median and mode of a list of numbers.

use vstd::prelude::*;

verus! {

/// Whether each number is at most those after it.
pub open spec fn ascending(s: Seq<i32>) -> bool {
    forall|i: int, j: int| 0 <= i < j < s.len() ==> s[i] <= s[j]
}

/// The numbers in ascending order.
pub open spec fn sorted_of(nums: Seq<i32>) -> Seq<i32> {
    nums.sort_by(|a: i32, b: i32| a <= b)
}

/// The median: the number that stands at the middle index (the upper middle
/// for an even length) once the numbers are in ascending order.
pub open spec fn median_of(nums: Seq<i32>) -> i32
    recommends
        nums.len() > 0,
{
    sorted_of(nums)[nums.len() as int / 2]
}

/// How often `value` occurs in `s`.
pub open spec fn count_in(s: Seq<i32>, value: i32) -> nat
    decreases s.len(),
{
    if s.len() == 0 {
        0
    } else {
        let rest: nat = count_in(s.drop_last(), value);
        if s.last() == value {
            rest + 1
        } else {
            rest
        }
    }
}

/// Whether the number at index `at` is the mode: no number occurs more often,
/// and each number before it occurs less often, so that among the numbers
/// that occur most often the mode is the one that comes first.
pub open spec fn is_mode_at(nums: Seq<i32>, at: int) -> bool {
    &&& 0 <= at < nums.len()
    &&& forall|k: int| 0 <= k < at ==> count_in(nums, nums[k]) < count_in(nums, nums[at])
    &&& forall|k: int| at <= k < nums.len() ==> count_in(nums, nums[k]) <= count_in(nums, nums[at])
}

/// The order by which the numbers are sorted is a total order.
proof fn lemma_order_is_total()
    ensures
        vstd::relations::total_ordering(|a: i32, b: i32| a <= b),
{
}

/// There is one ascending arrangement of the numbers, `sorted_of`.
proof fn lemma_ascending_is_sorted_of(arranged: Seq<i32>, nums: Seq<i32>)
    requires
        ascending(arranged),
        arranged.to_multiset() == nums.to_multiset(),
    ensures
        arranged == sorted_of(nums),
{
    let leq = |a: i32, b: i32| a <= b;
    lemma_order_is_total();
    nums.lemma_sort_by_ensures(leq);
    assert(vstd::relations::sorted_by(arranged, leq));
    vstd::seq_lib::lemma_sorted_unique(arranged, sorted_of(nums), leq);
}

/// The numbers in ascending order, in a vector of their own.
fn sorted_copy(nums: &Vec<i32>) -> (out: Vec<i32>)
    ensures
        out@ == sorted_of(nums@),
        out.len() == nums.len(),
{
    let mut out: Vec<i32> = Vec::new();
    let mut i: usize = 0;
    proof {
        assert(nums@.subrange(0, 0) =~= out@);
    }
    while i < nums.len()
        invariant
            i <= nums.len(),
            out.len() == i,
            ascending(out@),
            out@.to_multiset() == nums@.subrange(0, i as int).to_multiset(),
        decreases nums.len() - i,
    {
        let x: i32 = nums[i];
        let mut pos: usize = 0;
        while pos < out.len() && out[pos] <= x
            invariant
                pos <= out.len(),
                forall|k: int| 0 <= k < pos ==> out@[k] <= x,
            decreases out.len() - pos,
        {
            pos += 1;
        }
        let ghost before: Seq<i32> = out@;
        out.insert(pos, x);
        proof {
            vstd::seq_lib::to_multiset_insert(before, pos as int, x);
            vstd::seq_lib::to_multiset_build(nums@.subrange(0, i as int), x);
            assert(nums@.subrange(0, i as int).push(x) =~= nums@.subrange(0, i as int + 1));
            assert forall|a: int, b: int| 0 <= a < b < out@.len() implies out@[a] <= out@[b] by {
                if b < pos {
                    assert(out@[a] == before[a] && out@[b] == before[b]);
                } else if b == pos {
                    assert(out@[a] == before[a]);
                } else if a < pos {
                    assert(out@[a] == before[a] && out@[b] == before[b - 1]);
                    assert(before[pos as int] <= before[b - 1] || pos as int == b - 1);
                } else if a == pos {
                    assert(out@[b] == before[b - 1]);
                    assert(before[pos as int] <= before[b - 1] || pos as int == b - 1);
                } else {
                    assert(out@[a] == before[a - 1] && out@[b] == before[b - 1]);
                }
            }
        }
        i += 1;
    }
    proof {
        assert(nums@.subrange(0, nums.len() as int) =~= nums@);
        lemma_ascending_is_sorted_of(out@, nums@);
    }
    out
}

/// How often `value` occurs in `nums`.
fn count_of(nums: &Vec<i32>, value: i32) -> (count: usize)
    ensures
        count == count_in(nums@, value),
{
    let mut count: usize = 0;
    let mut j: usize = 0;
    while j < nums.len()
        invariant
            j <= nums.len(),
            count == count_in(nums@.subrange(0, j as int), value),
            count <= j,
        decreases nums.len() - j,
    {
        proof {
            assert(nums@.subrange(0, j as int + 1).drop_last() =~= nums@.subrange(0, j as int));
        }
        if nums[j] == value {
            count += 1;
        }
        j += 1;
    }
    proof {
        assert(nums@.subrange(0, nums.len() as int) =~= nums@);
    }
    count
}

/// The median and the mode of a list that is not empty. The median is the
/// middle number of the ascending order; the mode is the number that occurs
/// most often, and of several such the one that comes first in the list.
pub fn median_and_mode(nums: &Vec<i32>) -> (result: (i32, i32))
    requires
        nums.len() > 0,
    ensures
        result.0 == median_of(nums@),
        exists|at: int| is_mode_at(nums@, at) && nums@[at] == result.1,
{
    let sorted: Vec<i32> = sorted_copy(nums);
    let median: i32 = sorted[sorted.len() / 2];

    let mut best: usize = 0;
    let mut best_count: usize = count_of(nums, nums[0]);
    let mut i: usize = 1;
    while i < nums.len()
        invariant
            1 <= i <= nums.len(),
            0 <= best < i,
            best_count == count_in(nums@, nums@[best as int]),
            forall|k: int| 0 <= k < best ==> count_in(nums@, nums@[k]) < best_count,
            forall|k: int| best <= k < i ==> count_in(nums@, nums@[k]) <= best_count,
        decreases nums.len() - i,
    {
        let count: usize = count_of(nums, nums[i]);
        if count > best_count {
            best = i;
            best_count = count;
        }
        i += 1;
    }
    proof {
        assert(is_mode_at(nums@, best as int));
    }
    (median, nums[best])
}

} // verus!
