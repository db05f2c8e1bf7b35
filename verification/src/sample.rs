//! Samples as IEEE 754 binary32 encodings, and the order the detector thresholds by.

use vstd::prelude::*;
use vstd::arithmetic::power2::{pow2, lemma_pow2_pos, lemma_pow2_unfold, lemma_pow2_strictly_increases};

verus! {

/// The bit that holds the sign of a binary32 encoding.
pub const SIGN_BIT: u32 = 0x8000_0000;

/// The encoding of positive infinity; every larger magnitude encodes a NaN.
pub const INFINITY_BITS: u32 = 0x7f80_0000;

/// The number of distinct fractions: `2^23`.
pub const FRACTION_SPAN: u32 = 0x80_0000;

/// One measured value, held by its binary32 encoding.
///
/// Two samples are equal when their encodings are, so `+0` and `-0` are
/// different samples and a NaN equals itself. The numeric order is
/// [`Sample::exceeds`].
#[derive(Clone, Copy, Debug, PartialEq, Eq, Structural)]
pub struct Sample {
    pub bits: u32,
}

/// The magnitude, in units of `2^-149`, that exponent field `e` and fraction
/// field `f` encode.
pub open spec fn weight(e: nat, f: nat) -> nat {
    if e == 0 {
        f
    } else {
        (FRACTION_SPAN as nat + f) * pow2((e - 1) as nat)
    }
}

impl Sample {
    /// The sign bit is set.
    pub open spec fn is_negative(self) -> bool {
        self.bits >= SIGN_BIT
    }

    /// The eight-bit exponent field.
    pub open spec fn exponent(self) -> nat {
        (self.bits as nat / FRACTION_SPAN as nat) % 256
    }

    /// The 23-bit fraction field.
    pub open spec fn fraction(self) -> nat {
        self.bits as nat % FRACTION_SPAN as nat
    }

    /// The encoding is a NaN.
    pub open spec fn spec_is_nan(self) -> bool {
        self.exponent() == 255 && self.fraction() != 0
    }

    /// The encoding is an infinity.
    pub open spec fn is_infinite(self) -> bool {
        self.exponent() == 255 && self.fraction() == 0
    }

    /// The encoding is a zero, a subnormal or a normal number.
    pub open spec fn is_finite(self) -> bool {
        self.exponent() < 255
    }

    /// The absolute value in units of `2^-149`. For an infinity this is
    /// `2^277`, which lies above the magnitude of every finite sample.
    pub open spec fn magnitude(self) -> nat {
        weight(self.exponent(), self.fraction())
    }

    /// The value in units of `2^-149`: exact for a finite sample, and beyond
    /// every finite value for an infinity. It says nothing for a NaN.
    pub open spec fn scaled_value(self) -> int {
        if self.is_negative() {
            -(self.magnitude() as int)
        } else {
            self.magnitude() as int
        }
    }

    /// `self > other` as binary32 numbers: neither is a NaN and the value of
    /// `self` is the larger one. The two zeros have the same value.
    pub open spec fn spec_exceeds(self, other: Sample) -> bool {
        &&& !self.spec_is_nan()
        &&& !other.spec_is_nan()
        &&& self.scaled_value() > other.scaled_value()
    }

    /// The sample `+0`, which pads a series before it is averaged.
    pub fn zero() -> (r: Sample)
        ensures
            r.bits == 0,
            r.scaled_value() == 0,
            !r.spec_is_nan(),
    {
        Sample { bits: 0 }
    }

    /// Tells whether the sample is a NaN.
    #[verifier::when_used_as_spec(spec_is_nan)]
    pub fn is_nan(self) -> (r: bool)
        ensures
            r == self.spec_is_nan(),
    {
        self.bits % SIGN_BIT > INFINITY_BITS
    }

    /// Tells whether `self` is strictly greater than `other`. A NaN on either
    /// side gives `false`.
    #[verifier::when_used_as_spec(spec_exceeds)]
    pub fn exceeds(self, other: Sample) -> (r: bool)
        ensures
            r == self.spec_exceeds(other),
    {
        if self.is_nan() || other.is_nan() {
            return false;
        }
        let a: u32 = self.bits % SIGN_BIT;
        let b: u32 = other.bits % SIGN_BIT;
        proof {
            lemma_magnitude_follows_encoding(self, other);
            lemma_magnitude_follows_encoding(other, self);
            lemma_magnitude_follows_encoding(Sample { bits: 0 }, self);
            lemma_magnitude_follows_encoding(Sample { bits: 0 }, other);
        }
        if self.bits >= SIGN_BIT {
            other.bits >= SIGN_BIT && a < b
        } else if other.bits >= SIGN_BIT {
            a > 0 || b > 0
        } else {
            a > b
        }
    }
}

/// A larger exponent field, or the same exponent with a larger fraction,
/// encodes a larger magnitude.
pub proof fn lemma_weight_increases(e1: nat, f1: nat, e2: nat, f2: nat)
    requires
        f1 < FRACTION_SPAN,
        f2 < FRACTION_SPAN,
        e1 < e2 || (e1 == e2 && f1 < f2),
    ensures
        weight(e1, f1) < weight(e2, f2),
{
    let span = FRACTION_SPAN as nat;
    if e1 == e2 {
        if e1 > 0 {
            let p = pow2((e1 - 1) as nat);
            lemma_pow2_pos((e1 - 1) as nat);
            assert((span + f1) * p < (span + f2) * p) by (nonlinear_arith)
                requires
                    f1 < f2,
                    p > 0,
            ;
        }
    } else {
        let q = pow2((e2 - 1) as nat);
        lemma_pow2_pos((e2 - 1) as nat);
        assert(span * 1 <= (span + f2) * q) by (nonlinear_arith)
            requires
                q >= 1,
        ;
        if e1 > 0 {
            let p = pow2((e1 - 1) as nat);
            lemma_pow2_pos((e1 - 1) as nat);
            lemma_pow2_unfold(e1);
            if e1 < e2 - 1 {
                lemma_pow2_strictly_increases(e1, (e2 - 1) as nat);
            }
            assert((span + f1) * p < (span + f2) * q) by (nonlinear_arith)
                requires
                    f1 < span,
                    2 * p <= q,
                    p > 0,
            ;
        }
    }
}

/// Among encodings with the sign bit cleared, the order of the encodings is
/// the order of the magnitudes.
pub proof fn lemma_magnitude_follows_encoding(a: Sample, b: Sample)
    ensures
        a.bits % SIGN_BIT < b.bits % SIGN_BIT <==> a.magnitude() < b.magnitude(),
        a.bits % SIGN_BIT == b.bits % SIGN_BIT <==> a.magnitude() == b.magnitude(),
{
    let x = (a.bits % SIGN_BIT) as nat;
    let y = (b.bits % SIGN_BIT) as nat;
    assert(x == a.exponent() * FRACTION_SPAN as nat + a.fraction());
    assert(y == b.exponent() * FRACTION_SPAN as nat + b.fraction());
    if x < y {
        lemma_weight_increases(a.exponent(), a.fraction(), b.exponent(), b.fraction());
    } else if y < x {
        lemma_weight_increases(b.exponent(), b.fraction(), a.exponent(), a.fraction());
    }
}

/// Every finite sample lies strictly between the two infinities.
pub proof fn lemma_infinities_bound_finite(s: Sample)
    requires
        s.is_finite(),
    ensures
        (Sample { bits: INFINITY_BITS }).spec_exceeds(s),
        s.spec_exceeds(Sample { bits: 0xff80_0000 }),
{
    let up = Sample { bits: INFINITY_BITS };
    let down = Sample { bits: 0xff80_0000 };
    lemma_magnitude_follows_encoding(s, up);
    lemma_magnitude_follows_encoding(s, down);
}

} // verus!
