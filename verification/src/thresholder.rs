//! Turning scores into anomaly flags.

use vstd::prelude::*;
use crate::sample::{Sample, INFINITY_BITS, lemma_infinities_bound_finite};

verus! {

/// The flags of a sequence of scores: a sample is flagged where its score is
/// strictly above the threshold `t`.
pub open spec fn flags_of(scores: Seq<Sample>, t: Sample) -> Seq<bool> {
    Seq::new(scores.len(), |i: int| scores[i].spec_exceeds(t))
}

/// Flags every score that is strictly above `t`.
pub fn threshold(scores: &[Sample], t: Sample) -> (r: Vec<bool>)
    ensures
        r@ == flags_of(scores@, t),
        r@.len() == scores.len(),
        forall|i: int| 0 <= i < scores.len() ==> r@[i] == scores@[i].spec_exceeds(t),
{
    let mut flags: Vec<bool> = Vec::new();
    let mut i: usize = 0;
    while i < scores.len()
        invariant
            i <= scores.len(),
            flags@ == flags_of(scores@.subrange(0, i as int), t),
        decreases scores.len() - i,
    {
        flags.push(scores[i].exceeds(t));
        i += 1;
    }
    assert(scores@.subrange(0, scores.len() as int) == scores@);
    flags
}

/// A score that is not a number is never flagged, and under a threshold that
/// is not a number nothing is.
pub proof fn lemma_nan_is_not_flagged(scores: Seq<Sample>, t: Sample, i: int)
    requires
        0 <= i < scores.len(),
        scores[i].spec_is_nan() || t.spec_is_nan(),
    ensures
        !flags_of(scores, t)[i],
{
}

/// A score of positive infinity is flagged under every finite threshold.
pub proof fn lemma_infinite_score_is_flagged(scores: Seq<Sample>, t: Sample, i: int)
    requires
        0 <= i < scores.len(),
        scores[i].bits == INFINITY_BITS,
        t.is_finite(),
    ensures
        flags_of(scores, t)[i],
{
    lemma_infinities_bound_finite(t);
}

} // verus!
