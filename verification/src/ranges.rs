//! Stored ranges and chunk counting.

use vstd::prelude::*;

verus! {

/// An inclusive interval `[begin, end]` of chunk numbers.
#[derive(Clone, Copy, Debug, PartialEq, Eq, Structural)]
pub struct StoredRange {
    pub begin: u32,
    pub end: u32,
}

/// The ranges a worker stores of one dataset.
#[derive(Clone, Debug)]
pub struct DatasetRanges {
    pub url: String,
    pub ranges: Vec<StoredRange>,
}

/// Number of chunks in one range: `end - begin + 1`. A reversed range
/// (`end < begin`) holds no chunk.
pub open spec fn range_chunks(r: StoredRange) -> nat {
    if r.begin <= r.end {
        (r.end - r.begin + 1) as nat
    } else {
        0
    }
}

/// Sum of `range_chunks` over a sequence of ranges.
pub open spec fn ranges_chunks(ranges: Seq<StoredRange>) -> nat
    decreases ranges.len(),
{
    if ranges.len() == 0 {
        0
    } else {
        ranges_chunks(ranges.drop_last()) + range_chunks(ranges.last())
    }
}

/// Sum of `ranges_chunks` over the datasets.
pub open spec fn datasets_chunks(datasets: Seq<DatasetRanges>) -> nat
    decreases datasets.len(),
{
    if datasets.len() == 0 {
        0
    } else {
        datasets_chunks(datasets.drop_last()) + ranges_chunks(datasets.last().ranges@)
    }
}

/// The value a `u64` accumulator shows for a mathematical total: the total
/// itself while it fits, `u64::MAX` beyond.
pub open spec fn saturated(total: nat) -> u64 {
    if total <= u64::MAX {
        total as u64
    } else {
        u64::MAX
    }
}

impl StoredRange {
    /// Chunks in this range.
    pub fn chunks(&self) -> (n: u64)
        ensures
            n == range_chunks(*self),
    {
        if self.begin <= self.end {
            let width: u32 = self.end - self.begin;
            let n: u64 = width as u64;
            n + 1
        } else {
            0
        }
    }
}

/// Chunks in a list of ranges, saturating at `u64::MAX`.
pub fn chunks_in_ranges(ranges: &Vec<StoredRange>) -> (n: u64)
    ensures
        n == saturated(ranges_chunks(ranges@)),
{
    let mut total: u64 = 0;
    let mut i: usize = 0;
    while i < ranges.len()
        invariant
            i <= ranges.len(),
            total == saturated(ranges_chunks(ranges@.take(i as int))),
        decreases ranges.len() - i,
    {
        let c: u64 = ranges[i].chunks();
        proof {
            assert(ranges@.take(i + 1).drop_last() =~= ranges@.take(i as int));
        }
        total = total.saturating_add(c);
        i = i + 1;
    }
    proof {
        assert(ranges@.take(i as int) =~= ranges@);
    }
    total
}

/// Total number of chunks over all datasets, saturating at `u64::MAX`.
pub fn total_chunks(datasets: &Vec<DatasetRanges>) -> (n: u64)
    ensures
        n == saturated(datasets_chunks(datasets@)),
{
    let mut total: u64 = 0;
    let mut i: usize = 0;
    while i < datasets.len()
        invariant
            i <= datasets.len(),
            total == saturated(datasets_chunks(datasets@.take(i as int))),
        decreases datasets.len() - i,
    {
        let c: u64 = chunks_in_ranges(&datasets[i].ranges);
        proof {
            assert(datasets@.take(i + 1).drop_last() =~= datasets@.take(i as int));
        }
        total = total.saturating_add(c);
        i = i + 1;
    }
    proof {
        assert(datasets@.take(i as int) =~= datasets@);
    }
    total
}

} // verus!
