//! What makes a detection fail.

use vstd::prelude::*;

verus! {

/// The reasons for which a detection is refused.
#[derive(Clone, Copy, Debug, PartialEq, Eq, Structural)]
pub enum DetectError {
    /// The trend was to be read from `needed` trailing points, and the series
    /// has only `available` samples.
    InsufficientHistory { needed: usize, available: usize },
    /// The series was to be extended by a trend read from no points at all.
    EmptyHistory,
    /// A stage was handed `found` samples where `expected` were due.
    LengthMismatch { expected: usize, found: usize },
}

} // verus!
