//! How many bytes a read of byte ranges is booked with.

use std::ops::Range;
use vstd::prelude::*;

verus! {

/// The length of a range; negative for one that ends before it starts.
pub open spec fn range_length(range: Range<u64>) -> int {
    range.end - range.start
}

/// No range ends before it starts.
pub open spec fn all_forward(ranges: Seq<Range<u64>>) -> bool {
    forall|i: int| 0 <= i < ranges.len() ==> (#[trigger] ranges[i]).start <= ranges[i].end
}

/// The lengths of the ranges together. Bytes that lie in two ranges are counted twice.
pub open spec fn total_length(ranges: Seq<Range<u64>>) -> int
    decreases ranges.len(),
{
    if ranges.len() == 0 {
        0
    } else {
        total_length(ranges.drop_last()) + range_length(ranges.last())
    }
}

/// The bytes of one range; `None` if it ends before it starts.
pub fn bytes_in_range(range: &Range<u64>) -> (bytes: Option<usize>)
    ensures
        bytes == if range.start <= range.end {
            Some(range_length(*range) as usize)
        } else {
            None
        },
        bytes is Some <==> range.start <= range.end,
        bytes matches Some(n) ==> n == (range.end - range.start) as usize,
{
    if range.start <= range.end {
        Some((range.end - range.start) as usize)
    } else {
        None
    }
}

/// The bytes of all ranges together; `None` if one of them ends before it starts, or if the
/// sum does not fit a `u64`.
pub fn bytes_in_ranges(ranges: &[Range<u64>]) -> (bytes: Option<usize>)
    ensures
        bytes == if all_forward(ranges@) && total_length(ranges@) <= u64::MAX {
            Some(total_length(ranges@) as usize)
        } else {
            None
        },
        bytes is Some <==> (forall|i: int|
            0 <= i < ranges@.len() ==> (#[trigger] ranges@[i]).start <= ranges@[i].end)
            && ranges@.fold_left(0int, |sum: int, r: Range<u64>| sum + (r.end - r.start))
            <= u64::MAX,
        bytes matches Some(n) ==> n == ranges@.fold_left(
            0int,
            |sum: int, r: Range<u64>| sum + (r.end - r.start),
        ) as usize,
{
    let mut total: u64 = 0;
    let mut i: usize = 0;
    while i < ranges.len()
        invariant
            i <= ranges@.len(),
            all_forward(ranges@.take(i as int)),
            total == total_length(ranges@.take(i as int)),
        decreases ranges@.len() - i,
    {
        let start: u64 = ranges[i].start;
        let end: u64 = ranges[i].end;
        proof {
            let next = ranges@.take(i + 1);
            assert(next.drop_last() =~= ranges@.take(i as int));
            assert(next.last() == ranges@[i as int]);
        }
        if end < start {
            assert(!all_forward(ranges@));
            return None;
        }
        let length: u64 = end - start;
        match total.checked_add(length) {
            Some(sum) => {
                total = sum;
            },
            None => {
                proof {
                    total_is_the_sum_of_the_lengths(ranges@);
                    if all_forward(ranges@) {
                        lemma_total_grows(ranges@, i + 1);
                    }
                }
                return None;
            },
        }
        i += 1;
    }
    proof {
        total_is_the_sum_of_the_lengths(ranges@);
        assert(ranges@.take(i as int) =~= ranges@);
    }
    Some(total as usize)
}

proof fn lemma_total_grows(ranges: Seq<Range<u64>>, n: int)
    requires
        all_forward(ranges),
        0 <= n <= ranges.len(),
    ensures
        total_length(ranges.take(n)) <= total_length(ranges),
    decreases ranges.len(),
{
    if n == ranges.len() {
        assert(ranges.take(n) =~= ranges);
    } else {
        let front = ranges.drop_last();
        assert forall|i: int| 0 <= i < front.len() implies (#[trigger] front[i]).start
            <= front[i].end by {
            assert(front[i] == ranges[i]);
        }
        lemma_total_grows(front, n);
        assert(front.take(n) =~= ranges.take(n));
        assert(ranges[ranges.len() - 1].start <= ranges[ranges.len() - 1].end);
    }
}

/// A read of one range is booked alike, whether it is asked for alone or in a list.
pub proof fn a_single_range_is_booked_alike(range: Range<u64>)
    ensures
        total_length(seq![range]) == range_length(range),
        all_forward(seq![range]) <==> range.start <= range.end,
{
    assert(seq![range].drop_last() =~= Seq::<Range<u64>>::empty());
    assert(total_length(Seq::<Range<u64>>::empty()) == 0);
    assert(seq![range].last() == range);
    assert(seq![range][0] == range);
}

/// Reading two lists of ranges at once is booked as reading one after the other.
pub proof fn lists_are_booked_one_after_the_other(a: Seq<Range<u64>>, b: Seq<Range<u64>>)
    ensures
        total_length(a + b) == total_length(a) + total_length(b),
    decreases b.len(),
{
    if b.len() == 0 {
        assert(a + b =~= a);
    } else {
        lists_are_booked_one_after_the_other(a, b.drop_last());
        assert((a + b).drop_last() =~= a + b.drop_last());
        assert((a + b).last() == b.last());
    }
}

/// The total of a list is the sum, over its ranges, of the end minus the start.
pub proof fn total_is_the_sum_of_the_lengths(ranges: Seq<Range<u64>>)
    ensures
        total_length(ranges) == ranges.fold_left(
            0int,
            |sum: int, r: Range<u64>| sum + (r.end - r.start),
        ),
    decreases ranges.len(),
{
    let add_length = |sum: int, r: Range<u64>| sum + (r.end - r.start);
    if ranges.len() > 0 {
        total_is_the_sum_of_the_lengths(ranges.drop_last());
        assert(ranges.fold_left(0int, add_length) == add_length(
            ranges.drop_last().fold_left(0int, add_length),
            ranges.last(),
        ));
    }
}

/// One range more adds its end minus its start to the total, and the empty list has none.
pub proof fn each_range_adds_its_length(ranges: Seq<Range<u64>>, range: Range<u64>)
    ensures
        total_length(Seq::<Range<u64>>::empty()) == 0,
        total_length(ranges.push(range)) == total_length(ranges) + (range.end - range.start),
        total_length(seq![range]) == range.end - range.start,
        range_length(range) == range.end - range.start,
{
    a_single_range_is_booked_alike(range);
    assert(ranges.push(range).drop_last() =~= ranges);
}

/// Splitting a range in two, at any point of it, leaves the total as it is.
pub proof fn splitting_a_range_keeps_the_total(ranges: Seq<Range<u64>>, range: Range<u64>, at: u64)
    requires
        range.start <= at <= range.end,
    ensures
        total_length(ranges.push(range.start..at).push(at..range.end)) == total_length(
            ranges.push(range),
        ),
{
    each_range_adds_its_length(ranges, range);
    each_range_adds_its_length(ranges, range.start..at);
    each_range_adds_its_length(ranges.push(range.start..at), at..range.end);
}

/// Moving a range within the file leaves the total as it is.
pub proof fn moving_a_range_keeps_the_total(
    ranges: Seq<Range<u64>>,
    range: Range<u64>,
    moved: Range<u64>,
)
    requires
        moved.end - moved.start == range.end - range.start,
    ensures
        total_length(ranges.push(moved)) == total_length(ranges.push(range)),
{
    each_range_adds_its_length(ranges, range);
    each_range_adds_its_length(ranges, moved);
}

} // verus!
