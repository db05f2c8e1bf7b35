//! Extending a series at both ends by the value its trailing trend points to.
//!
//! The trend is the average gradient between the last sample and the samples
//! before it. The value one trend step ahead is put `k` times before the
//! series and `k` times after it, which softens the edges the transform sees.

use vstd::prelude::*;
use crate::error::DetectError;
use crate::layout::{frame, framed};
use crate::sample::Sample;

verus! {

/// The positions of a series that its trend is read from.
#[derive(Clone, Copy, Debug, PartialEq, Eq, Structural)]
pub struct TrendWindow {
    /// The first position paired with the last one. The pairs are the
    /// positions from `first` up to `last`, `last` itself left out.
    pub first: usize,
    /// The position of the last sample.
    pub last: usize,
    /// The position of the sample that the trend is added to.
    pub anchor: usize,
    /// The number of trailing points: what the sum of the gradients is
    /// divided by, and how many trend steps lie between the anchor and the
    /// extrapolated value.
    pub steps: usize,
}

/// Two positions that a gradient is taken between: the difference of the
/// sample at `x2` and the sample at `x1`, divided by `gap`.
#[derive(Clone, Copy, Debug, PartialEq, Eq, Structural)]
pub struct GradientPair {
    pub x1: usize,
    pub x2: usize,
    pub gap: usize,
}

/// The trend window of a series of `n` samples over `m` trailing points, for
/// `1 <= m <= n`.
///
/// With `m < n` the last sample is paired with each of the `m` samples before
/// it. With `m == n` there is no sample `m` positions before the last one: the
/// window then holds no pair, and the trend is added to the first sample.
pub open spec fn spec_trend_window(n: usize, m: usize) -> TrendWindow {
    TrendWindow {
        first: if m < n {
            (n - 1 - m) as usize
        } else {
            (n - 1) as usize
        },
        last: (n - 1) as usize,
        anchor: (n - m) as usize,
        steps: m,
    }
}

/// What extending a series of `n` samples by `k` values on each side, with a
/// trend over `m` trailing points, asks for: nothing where `k` is zero, and
/// else a trend window, which exists for `1 <= m <= n`.
pub open spec fn spec_plan(n: usize, m: usize, k: usize) -> Result<Option<TrendWindow>, DetectError> {
    if k == 0 {
        Ok(None)
    } else if m == 0 {
        Err(DetectError::EmptyHistory)
    } else if m > n {
        Err(DetectError::InsufficientHistory { needed: m, available: n })
    } else {
        Ok(Some(spec_trend_window(n, m)))
    }
}

/// The distance from position `x1` to position `x2` as unsigned arithmetic
/// counts it: `x2 - x1` where `x2` is not before `x1`, and that difference
/// wrapped around the range of `usize` where it is.
pub open spec fn spec_index_gap(x1: usize, x2: usize) -> int {
    if x2 >= x1 {
        x2 - x1
    } else {
        x2 - x1 + usize::MAX + 1
    }
}

/// The pairs of a trend window: the last position with each position from
/// `first` on, in rising order, each with the gap from the last position back
/// to the other.
pub open spec fn spec_pairs(w: TrendWindow) -> Seq<GradientPair> {
    Seq::new(
        if w.first <= w.last {
            (w.last - w.first) as nat
        } else {
            0
        },
        |j: int|
            GradientPair {
                x1: w.last,
                x2: (w.first + j) as usize,
                gap: spec_index_gap(w.last, (w.first + j) as usize) as usize,
            },
    )
}

/// The series with `k` copies of `extra` before it and `k` after it.
pub open spec fn extended(data: Seq<Sample>, extra: Sample, k: nat) -> Seq<Sample> {
    framed(data, extra, k, k)
}

/// Computes the divisor of the gradient between the samples at `x1` and `x2`.
pub fn index_gap(x1: usize, x2: usize) -> (r: usize)
    requires
        x1 != x2,
    ensures
        r == spec_index_gap(x1, x2),
        r != 0,
{
    if x2 >= x1 {
        x2 - x1
    } else {
        usize::MAX - (x1 - x2) + 1
    }
}

impl TrendWindow {
    /// Lists the pairs that the gradients of the trend are taken between.
    pub fn pairs(&self) -> (r: Vec<GradientPair>)
        ensures
            r@ == spec_pairs(*self),
    {
        let mut out: Vec<GradientPair> = Vec::new();
        let mut i: usize = self.first;
        while i < self.last
            invariant
                self.first <= i,
                self.first <= self.last ==> i <= self.last,
                self.first <= self.last ==> out@ == spec_pairs(*self).subrange(0, i - self.first),
                self.first > self.last ==> out@ == Seq::<GradientPair>::empty(),
            decreases self.last - i,
        {
            out.push(GradientPair { x1: self.last, x2: i, gap: index_gap(self.last, i) });
            i += 1;
        }
        proof {
            let all = spec_pairs(*self);
            assert(all.subrange(0, all.len() as int) == all);
        }
        out
    }
}

/// Decides what extending a series of `n` samples takes.
pub fn plan(n: usize, m: usize, k: usize) -> (r: Result<Option<TrendWindow>, DetectError>)
    ensures
        r == spec_plan(n, m, k),
{
    if k == 0 {
        Ok(None)
    } else if m == 0 {
        Err(DetectError::EmptyHistory)
    } else if m > n {
        Err(DetectError::InsufficientHistory { needed: m, available: n })
    } else {
        let last: usize = n - 1;
        let first: usize = if m < n {
            last - m
        } else {
            last
        };
        Ok(Some(TrendWindow { first, last, anchor: n - m, steps: m }))
    }
}

/// Puts `k` copies of `extra` before the series and `k` after it.
pub fn extend(data: &[Sample], extra: Sample, k: usize) -> (r: Vec<Sample>)
    requires
        data.len() + 2 * k <= usize::MAX,
    ensures
        r@ == extended(data@, extra, k as nat),
        r@.len() == data.len() + 2 * k,
{
    frame(data, extra, k, k)
}

/// A trend window lies inside its series: the anchor and every paired
/// position hold a sample, and no pair is made of one position twice.
pub proof fn lemma_trend_window_in_series(n: usize, m: usize)
    requires
        1 <= m <= n,
    ensures
        ({
            let w = spec_trend_window(n, m);
            &&& w.first <= w.last < n
            &&& w.anchor < n
            &&& w.steps == m
            &&& w.last - w.first == if m < n {
                m as int
            } else {
                0
            }
        }),
{
}

/// From a later position back to an earlier one the gap wraps: it is the
/// distance between the two short of the whole range of `usize`, not the
/// distance itself.
pub proof fn lemma_gap_wraps_backwards(x1: usize, x2: usize)
    requires
        x2 < x1,
    ensures
        spec_index_gap(x1, x2) == usize::MAX + 1 - (x1 - x2),
        spec_index_gap(x1, x2) + spec_index_gap(x2, x1) == usize::MAX + 1,
{
}

/// Every pair of a trend window looks back from the last position, so its
/// gap is a wrapped one.
pub proof fn lemma_pairs_look_back(w: TrendWindow, j: int)
    requires
        0 <= j < spec_pairs(w).len(),
    ensures
        spec_pairs(w)[j].x1 == w.last,
        spec_pairs(w)[j].x2 == w.first + j,
        spec_pairs(w)[j].x2 < spec_pairs(w)[j].x1,
        spec_pairs(w)[j].gap == usize::MAX + 1 - (w.last - w.first - j),
{
}

/// Where nothing is to be added, no trend is asked for and nothing is
/// refused, whatever the number of trend points.
pub proof fn lemma_no_extension_needs_no_trend(n: usize, m: usize)
    ensures
        spec_plan(n, m, 0) == Ok::<Option<TrendWindow>, DetectError>(None),
{
}

/// A series extended by nothing is the series itself.
pub proof fn lemma_extended_by_zero(data: Seq<Sample>, extra: Sample)
    ensures
        extended(data, extra, 0) == data,
{
}

} // verus!
