//! Single-precision numbers as bit patterns.
//!
//! The renderer's geometry is computed in IEEE-754 binary32 arithmetic by its
//! caller. The decisions that depend on those numbers (which root lies in the
//! clip window, which hit is nearest, which way a normal faces) only ever
//! compare or negate them, and both operations are exact functions of the bit
//! pattern. `Scalar` carries the pattern, so those decisions can be stated and
//! proved here without touching the arithmetic itself.

use vstd::prelude::*;

verus! {

/// The sign bit of a binary32 pattern.
pub const SIGN_BIT: u32 = 0x8000_0000;

/// The pattern of positive infinity: every exponent bit set, no fraction bit.
/// A larger magnitude is a NaN.
pub const INFINITY_BITS: u32 = 0x7f80_0000;

/// An IEEE-754 binary32 value, held by its bit pattern.
///
/// `==` on `Scalar` compares patterns. It is finer than numeric equality: the
/// two zeros differ as patterns, and a NaN equals itself.
#[derive(Clone, Copy, Debug, PartialEq, Eq, Structural)]
pub struct Scalar {
    pub bits: u32,
}

impl Scalar {
    /// The sign bit is set. This holds of `-0.0` and of half the NaNs too.
    pub open spec fn is_sign_negative(self) -> bool {
        self.bits >= SIGN_BIT
    }

    /// The pattern with the sign bit cleared, as a number.
    pub open spec fn magnitude(self) -> int {
        if self.bits >= SIGN_BIT {
            self.bits - SIGN_BIT
        } else {
            self.bits as int
        }
    }

    /// The value is a NaN: it compares with nothing, itself included.
    pub open spec fn is_nan_spec(self) -> bool {
        self.magnitude() > INFINITY_BITS
    }

    /// The position of a value that is no NaN on the number line.
    ///
    /// Binary32 is a sign-and-magnitude format whose magnitudes grow with their
    /// patterns, so the signed magnitude orders the values as the numbers they
    /// stand for. Both zeros have key 0.
    pub open spec fn key(self) -> int {
        if self.is_sign_negative() {
            -self.magnitude()
        } else {
            self.magnitude()
        }
    }

    /// `self < other` as binary32 numbers: false as soon as either is a NaN.
    pub open spec fn lt_spec(self, other: Scalar) -> bool {
        !self.is_nan_spec() && !other.is_nan_spec() && self.key() < other.key()
    }

    /// The value with its sign flipped, which is what unary minus does to a
    /// binary32 number, NaNs and zeros included.
    pub open spec fn neg_spec(self) -> Scalar {
        if self.bits >= SIGN_BIT {
            Scalar { bits: (self.bits - SIGN_BIT) as u32 }
        } else {
            Scalar { bits: (self.bits + SIGN_BIT) as u32 }
        }
    }

    /// The pattern of `0.0`.
    pub open spec fn zero_spec() -> Scalar {
        Scalar { bits: 0 }
    }

    pub fn from_bits(bits: u32) -> (s: Scalar)
        ensures
            s.bits == bits,
    {
        Scalar { bits }
    }

    pub fn to_bits(self) -> (bits: u32)
        ensures
            bits == self.bits,
    {
        self.bits
    }

    #[verifier::when_used_as_spec(zero_spec)]
    pub fn zero() -> (s: Scalar)
        ensures
            s == Self::zero_spec(),
    {
        Scalar { bits: 0 }
    }

    #[verifier::when_used_as_spec(is_nan_spec)]
    pub fn is_nan(self) -> (r: bool)
        ensures
            r == self.is_nan_spec(),
    {
        let magnitude: u32 = if self.bits >= SIGN_BIT {
            self.bits - SIGN_BIT
        } else {
            self.bits
        };
        magnitude > INFINITY_BITS
    }

    /// Numeric `<`.
    #[verifier::when_used_as_spec(lt_spec)]
    pub fn lt(self, other: Scalar) -> (r: bool)
        ensures
            r == self.lt_spec(other),
    {
        if self.is_nan() || other.is_nan() {
            false
        } else {
            self.signed_magnitude() < other.signed_magnitude()
        }
    }

    /// Unary minus.
    #[verifier::when_used_as_spec(neg_spec)]
    pub fn neg(self) -> (r: Scalar)
        ensures
            r == self.neg_spec(),
    {
        if self.bits >= SIGN_BIT {
            Scalar { bits: self.bits - SIGN_BIT }
        } else {
            Scalar { bits: self.bits + SIGN_BIT }
        }
    }

    fn signed_magnitude(self) -> (k: i64)
        ensures
            k == self.key(),
    {
        if self.bits >= SIGN_BIT {
            -((self.bits - SIGN_BIT) as i64)
        } else {
            self.bits as i64
        }
    }
}

/// `<` is a strict order: nothing is below itself, and it is transitive.
pub proof fn lemma_lt_strict_order(a: Scalar, b: Scalar, c: Scalar)
    ensures
        !a.lt_spec(a),
        a.lt_spec(b) ==> !b.lt_spec(a),
        a.lt_spec(b) && b.lt_spec(c) ==> a.lt_spec(c),
{
}

/// Negation is its own inverse, keeps NaNs NaNs, and mirrors the order.
pub proof fn lemma_neg_mirrors(a: Scalar, b: Scalar)
    ensures
        a.neg_spec().neg_spec() == a,
        a.neg_spec().is_nan_spec() == a.is_nan_spec(),
        a.neg_spec().key() == -a.key(),
        a.neg_spec().lt_spec(b.neg_spec()) == b.lt_spec(a),
{
}

} // verus!
