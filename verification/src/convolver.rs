//! The zero-padded windows that a moving average of a series is taken over.
//!
//! A window of `w` samples is centred on each sample of the series. Where it
//! reaches over an end of the series it reads zeros, so the averages near the
//! ends are pulled towards zero.

use vstd::prelude::*;
use vstd::slice::slice_subrange;
use crate::layout::{frame, framed};
use crate::sample::Sample;

verus! {

/// The number of zeros put before the series for a window of `w` samples.
pub open spec fn left_padding(w: nat) -> nat {
    if w % 2 == 0 {
        (w / 2 - 1) as nat
    } else {
        ((w - 1) / 2) as nat
    }
}

/// The number of zeros put after the series for a window of `w` samples.
pub open spec fn right_padding(w: nat) -> nat {
    (w - left_padding(w) - 1) as nat
}

/// The series between its zeros.
pub open spec fn zero_padded(data: Seq<Sample>, w: nat) -> Seq<Sample> {
    framed(data, Sample { bits: 0 }, left_padding(w), right_padding(w))
}

/// All runs of `w` consecutive samples of `s`, by their first position.
pub open spec fn sliding(s: Seq<Sample>, w: nat) -> Seq<Seq<Sample>> {
    Seq::new(
        if s.len() >= w {
            (s.len() - w + 1) as nat
        } else {
            0
        },
        |i: int| s.subrange(i, i + w),
    )
}

/// The windows of `w` samples over the zero-padded series.
pub open spec fn windows_of(data: Seq<Sample>, w: nat) -> Seq<Seq<Sample>> {
    sliding(zero_padded(data, w), w)
}

/// Computes how many zeros go before and after the series.
pub fn padding(w: usize) -> (r: (usize, usize))
    requires
        w >= 1,
    ensures
        r.0 == left_padding(w as nat),
        r.1 == right_padding(w as nat),
        r.0 + r.1 + 1 == w,
{
    let left: usize = if w % 2 == 0 {
        w / 2 - 1
    } else {
        (w - 1) / 2
    };
    (left, w - left - 1)
}

/// The windows over one series, each of them `width` samples long.
pub struct Windows {
    padded: Vec<Sample>,
    width: usize,
}

impl View for Windows {
    type V = Seq<Seq<Sample>>;

    /// The windows, in the order of the samples they are centred on.
    closed spec fn view(&self) -> Seq<Seq<Sample>> {
        sliding(self.padded@, self.width as nat)
    }
}

impl Windows {
    #[verifier::type_invariant]
    spec fn well_formed(&self) -> bool {
        self.width >= 1
    }

    /// The number of samples in each window.
    pub closed spec fn spec_width(&self) -> usize {
        self.width
    }

    /// Lays the windows of `w` samples over `data`: one window for each
    /// sample of the series.
    pub fn over(data: &[Sample], w: usize) -> (r: Windows)
        requires
            w >= 1,
            data.len() + w - 1 <= usize::MAX,
        ensures
            r@ == windows_of(data@, w as nat),
            r@.len() == data.len(),
            r.spec_width() == w,
    {
        let (left, right) = padding(w);
        let padded = frame(data, Sample::zero(), left, right);
        Windows { padded, width: w }
    }

    /// The number of windows.
    pub fn len(&self) -> (r: usize)
        ensures
            r == self@.len(),
    {
        proof {
            use_type_invariant(self);
        }
        if self.padded.len() >= self.width {
            self.padded.len() - self.width + 1
        } else {
            0
        }
    }

    /// The number of samples in each window: what the sum over a window is
    /// divided by.
    #[verifier::when_used_as_spec(spec_width)]
    pub fn width(&self) -> (r: usize)
        ensures
            r == self.spec_width(),
            r >= 1,
    {
        proof {
            use_type_invariant(self);
        }
        self.width
    }

    /// The samples of window `i`, zeros included.
    pub fn window(&self, i: usize) -> (r: &[Sample])
        requires
            i < self@.len(),
        ensures
            r@ == self@[i as int],
            r@.len() == self.spec_width(),
    {
        proof {
            use_type_invariant(self);
            assert(self.padded.len() >= self.width);
        }
        slice_subrange(self.padded.as_slice(), i, i + self.width)
    }
}

/// There is one window for each sample of the series, whatever the width.
pub proof fn lemma_one_window_per_sample(data: Seq<Sample>, w: nat)
    requires
        w >= 1,
    ensures
        windows_of(data, w).len() == data.len(),
{
}

/// Sample `j` of window `i` is the sample of the series at
/// `i + j - left_padding(w)`, and `+0` where the series has none there.
pub proof fn lemma_window_sample(data: Seq<Sample>, w: nat, i: int, j: int)
    requires
        w >= 1,
        0 <= i < data.len(),
        0 <= j < w,
    ensures
        windows_of(data, w)[i].len() == w,
        windows_of(data, w)[i][j] == if 0 <= i + j - left_padding(w) < data.len() {
            data[i + j - left_padding(w)]
        } else {
            Sample { bits: 0 }
        },
{
}

} // verus!
