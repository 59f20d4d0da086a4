//! Double-precision values carried as IEEE-754 bit patterns.
//!
//! A `Real` holds the 64 bits of a double: 1 sign bit, an 11-bit biased
//! exponent and a 52-bit fraction.  Everything this module computes —
//! classification, sign changes, and the ordering of non-NaN values — is
//! exact bit manipulation, so it is implemented and verified here rather
//! than delegated to floating-point hardware.  The ordering is expressed
//! through `order_key`, a monotone map from the non-NaN doubles onto `u64`
//! (the IEEE total order with the two zeros identified), so that `<` and
//! `==` on doubles coincide with `<` and `==` on keys.

use vstd::prelude::*;

verus! {

/// Bits of `0.0`.
pub const BITS_ZERO: u64 = 0x0000_0000_0000_0000;
/// Bits of `1.0`.
pub const BITS_ONE: u64 = 0x3FF0_0000_0000_0000;
/// Bits of positive infinity.
pub const BITS_INF: u64 = 0x7FF0_0000_0000_0000;
/// Mask selecting everything but the sign bit.
pub const MASK_MAGNITUDE: u64 = 0x7FFF_FFFF_FFFF_FFFF;
/// Mask selecting the sign bit.
pub const MASK_SIGN: u64 = 0x8000_0000_0000_0000;
/// Mask selecting the 52 fraction bits.
pub const MASK_FRACTION: u64 = 0x000F_FFFF_FFFF_FFFF;

/// A double-precision floating-point value, held as its bit pattern.
#[derive(Clone, Copy, PartialEq, Eq, Structural, Debug)]
pub struct Real {
    pub bits: u64,
}

/// Biased exponent field of the bit pattern.
pub open spec fn spec_exponent(r: Real) -> u64 {
    (r.bits >> 52) & 0x7FF
}

/// Fraction field of the bit pattern.
pub open spec fn spec_fraction(r: Real) -> u64 {
    r.bits & MASK_FRACTION
}

/// The sign bit is set (the value is negative, a negative zero included).
pub open spec fn spec_sign(r: Real) -> bool {
    r.bits >> 63 == 1
}

/// The pattern encodes a NaN: exponent all ones, fraction non-zero.
pub open spec fn spec_is_nan(r: Real) -> bool {
    spec_exponent(r) == 0x7FF && spec_fraction(r) != 0
}

/// The pattern encodes a finite value: exponent not all ones.
pub open spec fn spec_is_finite(r: Real) -> bool {
    spec_exponent(r) != 0x7FF
}

/// The pattern encodes a zero of either sign.
pub open spec fn spec_is_zero(r: Real) -> bool {
    r.bits & MASK_MAGNITUDE == 0
}

/// Monotone map of the non-NaN doubles onto `u64`: negatives are
/// complemented, positives are offset past them, and the two zeros share
/// one key.  For non-NaN `a`, `b` the IEEE comparisons `a < b` and
/// `a == b` hold exactly when `order_key(a) < order_key(b)` and
/// `order_key(a) == order_key(b)`.
pub open spec fn order_key(r: Real) -> u64 {
    if spec_is_zero(r) {
        MASK_SIGN
    } else if spec_sign(r) {
        !r.bits
    } else {
        r.bits | MASK_SIGN
    }
}

/// IEEE `a == b`: both non-NaN and of equal key.
pub open spec fn spec_eq(a: Real, b: Real) -> bool {
    !spec_is_nan(a) && !spec_is_nan(b) && order_key(a) == order_key(b)
}

/// IEEE `a < b`: both non-NaN and the keys strictly ordered.
pub open spec fn spec_lt(a: Real, b: Real) -> bool {
    !spec_is_nan(a) && !spec_is_nan(b) && order_key(a) < order_key(b)
}

/// IEEE `a <= b`: both non-NaN and the keys ordered.
pub open spec fn spec_le(a: Real, b: Real) -> bool {
    !spec_is_nan(a) && !spec_is_nan(b) && order_key(a) <= order_key(b)
}

/// The magnitude with the sign bit cleared: IEEE absolute value.
pub open spec fn spec_abs(r: Real) -> Real {
    Real { bits: r.bits & MASK_MAGNITUDE }
}

/// The sign bit flipped: IEEE negation.
pub open spec fn spec_neg(r: Real) -> Real {
    Real { bits: r.bits ^ MASK_SIGN }
}

impl Real {
    /// Wraps a raw bit pattern.
    pub fn from_bits(bits: u64) -> (r: Real)
        ensures
            r.bits == bits,
    {
        Real { bits }
    }

    /// Positive zero.
    pub fn zero() -> (r: Real)
        ensures
            r.bits == BITS_ZERO,
            spec_is_zero(r),
            spec_is_finite(r),
    {
        proof {
            assert(BITS_ZERO & MASK_MAGNITUDE == 0) by (bit_vector);
            assert((BITS_ZERO >> 52) & 0x7FF != 0x7FF) by (bit_vector);
        }
        Real { bits: BITS_ZERO }
    }

    /// The value one.
    pub fn one() -> (r: Real)
        ensures
            r.bits == BITS_ONE,
            spec_is_finite(r),
    {
        proof {
            assert((BITS_ONE >> 52) & 0x7FF != 0x7FF) by (bit_vector);
        }
        Real { bits: BITS_ONE }
    }

    /// Positive infinity.
    pub fn infinity() -> (r: Real)
        ensures
            r.bits == BITS_INF,
            !spec_is_nan(r),
            !spec_is_finite(r),
    {
        proof {
            assert((BITS_INF >> 52) & 0x7FF == 0x7FF) by (bit_vector);
            assert(BITS_INF & MASK_FRACTION == 0) by (bit_vector);
        }
        Real { bits: BITS_INF }
    }

    /// The pattern encodes a NaN.
    pub fn is_nan(&self) -> (r: bool)
        ensures
            r == spec_is_nan(*self),
    {
        (self.bits >> 52) & 0x7FF == 0x7FF && self.bits & MASK_FRACTION != 0
    }

    /// The pattern encodes a finite value.
    pub fn is_finite(&self) -> (r: bool)
        ensures
            r == spec_is_finite(*self),
    {
        (self.bits >> 52) & 0x7FF != 0x7FF
    }

    /// The pattern encodes a zero of either sign.
    pub fn is_zero(&self) -> (r: bool)
        ensures
            r == spec_is_zero(*self),
    {
        self.bits & MASK_MAGNITUDE == 0
    }

    /// The ordering key of a non-NaN value.
    fn key(&self) -> (k: u64)
        requires
            !spec_is_nan(*self),
        ensures
            k == order_key(*self),
    {
        if self.bits & MASK_MAGNITUDE == 0 {
            MASK_SIGN
        } else if self.bits >> 63 == 1 {
            !self.bits
        } else {
            self.bits | MASK_SIGN
        }
    }

    /// IEEE equality; false whenever either side is NaN.
    pub fn eq_val(&self, other: &Real) -> (r: bool)
        ensures
            r == spec_eq(*self, *other),
    {
        if self.is_nan() || other.is_nan() {
            false
        } else {
            self.key() == other.key()
        }
    }

    /// IEEE strict order; false whenever either side is NaN.
    pub fn lt(&self, other: &Real) -> (r: bool)
        ensures
            r == spec_lt(*self, *other),
    {
        if self.is_nan() || other.is_nan() {
            false
        } else {
            self.key() < other.key()
        }
    }

    /// IEEE non-strict order; false whenever either side is NaN.
    pub fn le(&self, other: &Real) -> (r: bool)
        ensures
            r == spec_le(*self, *other),
    {
        if self.is_nan() || other.is_nan() {
            false
        } else {
            self.key() <= other.key()
        }
    }

    /// IEEE absolute value: the sign bit cleared.
    pub fn abs(&self) -> (r: Real)
        ensures
            r == spec_abs(*self),
    {
        Real { bits: self.bits & MASK_MAGNITUDE }
    }

    /// IEEE negation: the sign bit flipped.
    pub fn neg(&self) -> (r: Real)
        ensures
            r == spec_neg(*self),
    {
        Real { bits: self.bits ^ MASK_SIGN }
    }

    /// The smaller of two values by the IEEE order; the first argument
    /// wins ties and is returned when the other side is NaN.
    pub fn min_val(&self, other: &Real) -> (r: Real)
        ensures
            r == (if spec_lt(*other, *self) { *other } else { *self }),
    {
        if other.lt(self) {
            *other
        } else {
            *self
        }
    }

    /// The larger of two values by the IEEE order; the first argument
    /// wins ties and is returned when the other side is NaN.
    pub fn max_val(&self, other: &Real) -> (r: Real)
        ensures
            r == (if spec_lt(*self, *other) { *other } else { *self }),
    {
        if self.lt(other) {
            *other
        } else {
            *self
        }
    }
}

/// For bit patterns strictly between zero and positive infinity — the
/// positive finite doubles — classification is benign and the ordering
/// key is the pattern with the sign bit set, so keys compare exactly as
/// the patterns do.
pub proof fn lemma_positive_bits_ordered(x: u64, y: u64)
    by (bit_vector)
    requires
        0 < x < 0x7FF0_0000_0000_0000,
        0 < y < 0x7FF0_0000_0000_0000,
    ensures
        (x >> 52) & 0x7FF != 0x7FF,
        !(x & 0x7FFF_FFFF_FFFF_FFFF == 0),
        !(x >> 63 == 1),
        (x | 0x8000_0000_0000_0000) <= (y | 0x8000_0000_0000_0000) <==> x <= y,
        (x | 0x8000_0000_0000_0000) < (y | 0x8000_0000_0000_0000) <==> x < y,
{
}

/// A complex value: real and imaginary part, each a `Real`.
#[derive(Clone, Copy, PartialEq, Eq, Structural, Debug)]
pub struct Complex {
    pub re: Real,
    pub im: Real,
}

/// Both parts are finite.
pub open spec fn spec_complex_finite(c: Complex) -> bool {
    spec_is_finite(c.re) && spec_is_finite(c.im)
}

impl Complex {
    /// Builds a complex value from its two parts.
    pub fn new(re: Real, im: Real) -> (r: Complex)
        ensures
            r.re == re,
            r.im == im,
    {
        Complex { re, im }
    }

    /// Both parts are finite.
    pub fn is_finite(&self) -> (r: bool)
        ensures
            r == spec_complex_finite(*self),
    {
        self.re.is_finite() && self.im.is_finite()
    }
}

} // verus!
