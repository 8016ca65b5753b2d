//! Single-precision numbers and three-dimensional vectors as bit patterns.

use vstd::arithmetic::power2::pow2;
use vstd::prelude::*;

verus! {

/// The sign bit of a binary32 encoding.
pub const SIGN_BIT: u32 = 0x8000_0000;

/// The encoding of positive infinity: every exponent bit set, no other.
/// An encoding whose bits below the sign are above this one is a NaN.
pub const INFINITY_BITS: u32 = 0x7f80_0000;

/// Two to the 23rd power: the number of encodings that share one exponent
/// and one sign.
pub const FRACTION_SPAN: u32 = 0x80_0000;

/// A single-precision number, held as its IEEE 754 binary32 encoding.
///
/// Two scalars are `==` when their encodings are the same. That is finer
/// than numeric equality: the two zeros differ, and a NaN equals itself.
#[derive(Clone, Copy, PartialEq, Eq, Debug)]
pub struct Scalar {
    pub bits: u32,
}

impl Scalar {
    /// The encoding without its sign bit.
    pub open spec fn magnitude(self) -> u32 {
        if self.bits >= SIGN_BIT {
            (self.bits - SIGN_BIT) as u32
        } else {
            self.bits
        }
    }

    /// Whether this is positive or negative zero.
    pub open spec fn is_zero_spec(self) -> bool {
        self.magnitude() == 0
    }

    /// Whether this is a number other than the infinities and the NaNs.
    pub open spec fn is_finite_spec(self) -> bool {
        self.magnitude() < INFINITY_BITS
    }

    /// Whether this is not a number.
    pub open spec fn is_nan_spec(self) -> bool {
        self.magnitude() > INFINITY_BITS
    }

    /// The integer that a finite number is a multiple of its unit by, with
    /// the number's sign: the fraction bits, and above them a leading one
    /// unless the exponent bits are all clear.
    pub open spec fn significand(self) -> int {
        let exponent = self.magnitude() as int / (FRACTION_SPAN as int);
        let fraction = self.magnitude() as int % (FRACTION_SPAN as int);
        let unsigned = if exponent == 0 {
            fraction
        } else {
            FRACTION_SPAN + fraction
        };
        if self.bits >= SIGN_BIT {
            -unsigned
        } else {
            unsigned
        }
    }

    /// The power of two that is the unit of a finite number: the number is
    /// `significand() * 2^scale()`.
    pub open spec fn scale(self) -> int {
        let exponent = self.magnitude() as int / (FRACTION_SPAN as int);
        if exponent == 0 {
            -149
        } else {
            exponent - 150
        }
    }

    /// Whether this is a finite number that differs from the fraction
    /// `numerator / denominator` by at most half its unit, so that it is
    /// what the fraction rounds to.
    pub open spec fn rounds(self, numerator: int, denominator: int) -> bool {
        &&& self.is_finite_spec()
        &&& denominator > 0
        &&& if self.scale() >= 0 {
            let unit = pow2(self.scale() as nat) as int;
            let doubled = 2 * (self.significand() * unit * denominator - numerator);
            -(unit * denominator) <= doubled <= unit * denominator
        } else {
            let parts = pow2((-self.scale()) as nat) as int;
            let doubled = 2 * (self.significand() * denominator - numerator * parts);
            -denominator <= doubled <= denominator
        }
    }

    /// Whether the two are equal as numbers: neither is a NaN, and they
    /// have the same encoding or are both zero.
    pub open spec fn same_number(self, other: Scalar) -> bool {
        &&& !self.is_nan_spec()
        &&& !other.is_nan_spec()
        &&& (self.bits == other.bits || (self.is_zero_spec() && other.is_zero_spec()))
    }

    /// Whether the two are finite and equal as numbers. These are the
    /// pairs whose difference is zero: the difference of two finite
    /// numbers is zero only where they are equal, and a difference with an
    /// infinity or a NaN in it is never zero.
    pub open spec fn coincides_spec(self, other: Scalar) -> bool {
        self.is_finite_spec() && other.is_finite_spec() && self.same_number(other)
    }

    /// The scalar with the sign bit flipped and the other bits kept.
    pub open spec fn neg_spec(self) -> Scalar {
        if self.bits >= SIGN_BIT {
            Scalar { bits: (self.bits - SIGN_BIT) as u32 }
        } else {
            Scalar { bits: (self.bits + SIGN_BIT) as u32 }
        }
    }

    /// Positive zero.
    pub fn zero() -> (s: Scalar)
        ensures
            s.bits == 0,
    {
        Scalar { bits: 0 }
    }

    /// Whether this is positive or negative zero, the two values that
    /// compare equal to `0.0`.
    #[verifier::when_used_as_spec(is_zero_spec)]
    pub fn is_zero(self) -> (b: bool)
        ensures
            b == self.is_zero_spec(),
    {
        self.bits == 0 || self.bits == SIGN_BIT
    }

    /// Whether this is a number other than the infinities and the NaNs.
    #[verifier::when_used_as_spec(is_finite_spec)]
    pub fn is_finite(self) -> (b: bool)
        ensures
            b == self.is_finite_spec(),
    {
        if self.bits >= SIGN_BIT {
            self.bits - SIGN_BIT < INFINITY_BITS
        } else {
            self.bits < INFINITY_BITS
        }
    }

    /// Whether the two are finite and equal as numbers, so that their
    /// difference is zero.
    #[verifier::when_used_as_spec(coincides_spec)]
    pub fn coincides(self, other: Scalar) -> (b: bool)
        ensures
            b == self.coincides_spec(other),
    {
        self.is_finite() && other.is_finite() && (self.bits == other.bits || (self.is_zero()
            && other.is_zero()))
    }

    /// The same number with the opposite sign.
    #[verifier::when_used_as_spec(neg_spec)]
    pub fn neg(self) -> (s: Scalar)
        ensures
            s == self.neg_spec(),
    {
        if self.bits >= SIGN_BIT {
            Scalar { bits: self.bits - SIGN_BIT }
        } else {
            Scalar { bits: self.bits + SIGN_BIT }
        }
    }
}

/// Flipping the sign bit negates the number: the significand changes its
/// sign and nothing else changes. Doing it twice gives the scalar back.
pub proof fn lemma_neg_negates(s: Scalar)
    ensures
        s.neg_spec().significand() == -s.significand(),
        s.neg_spec().scale() == s.scale(),
        s.neg_spec().magnitude() == s.magnitude(),
        s.neg_spec().neg_spec() == s,
{
}

/// A vector of three scalars.
#[derive(Clone, Copy, PartialEq, Eq, Debug)]
pub struct Vec3 {
    pub x: Scalar,
    pub y: Scalar,
    pub z: Scalar,
}

impl Vec3 {
    /// The vector whose three components are positive zero.
    pub open spec fn origin() -> Vec3 {
        Vec3 { x: Scalar { bits: 0 }, y: Scalar { bits: 0 }, z: Scalar { bits: 0 } }
    }

    /// The vector whose components have the given encodings.
    pub fn from_bits(x: u32, y: u32, z: u32) -> (v: Vec3)
        ensures
            v == (Vec3 { x: Scalar { bits: x }, y: Scalar { bits: y }, z: Scalar { bits: z } }),
    {
        Vec3 { x: Scalar { bits: x }, y: Scalar { bits: y }, z: Scalar { bits: z } }
    }

    /// The vector whose three components are positive zero.
    pub fn zero() -> (v: Vec3)
        ensures
            v == Vec3::origin(),
    {
        Vec3 { x: Scalar::zero(), y: Scalar::zero(), z: Scalar::zero() }
    }
}

} // verus!
