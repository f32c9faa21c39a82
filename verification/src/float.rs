//! Binary64 numbers held by their IEEE 754 encoding.
//!
//! A [`Float`] is the 64-bit pattern of a double-precision number: one sign
//! bit, eleven exponent bits, fifty-two fraction bits. Classification,
//! comparison and negation are decided here, on the encoding, and verified.
//! Rounded arithmetic is not: it is asked of an
//! [`Arithmetic`](crate::numeric::Arithmetic) that the caller supplies.

use vstd::prelude::*;

verus! {

/// The sign bit of an encoding.
pub const SIGN_BIT: u64 = 0x8000_0000_0000_0000;

/// The magnitude of both infinities; every larger magnitude is a NaN.
pub const INFINITY_BITS: u64 = 0x7ff0_0000_0000_0000;

/// The encoding of the quiet NaN that stands for "not set".
pub const NAN_BITS: u64 = 0x7ff8_0000_0000_0000;

/// The encoding of `0.5`.
pub const HALF_BITS: u64 = 0x3fe0_0000_0000_0000;

/// The encoding of `2`.
pub const TWO_BITS: u64 = 0x4000_0000_0000_0000;

/// The encoding of `-1`.
pub const MINUS_ONE_BITS: u64 = 0xbff0_0000_0000_0000;

/// A double-precision number, as its bit pattern. Every pattern is a value.
///
/// `==` compares patterns: it tells the two zeros apart and finds a NaN
/// equal to itself. The methods `lt`, `le`, `gt` and `ge` compare values.
#[derive(Clone, Copy, PartialEq, Eq, Structural, Debug)]
pub struct Float {
    pub bits: u64,
}

impl Float {
    /// The encoding without its sign bit.
    pub open spec fn magnitude(self) -> int {
        self.bits as int % SIGN_BIT as int
    }

    /// The sign bit is set (which may be so of a zero, an infinity or a NaN).
    pub open spec fn sign_negative(self) -> bool {
        self.bits >= SIGN_BIT
    }

    pub open spec fn spec_is_nan(self) -> bool {
        self.magnitude() > INFINITY_BITS
    }

    pub open spec fn spec_is_infinite(self) -> bool {
        self.magnitude() == INFINITY_BITS
    }

    /// Neither an infinity nor a NaN.
    pub open spec fn spec_is_finite(self) -> bool {
        self.magnitude() < INFINITY_BITS
    }

    /// Where the value stands among the values that are not NaN: encodings
    /// of one sign are ordered by magnitude, and both zeros stand at 0.
    pub open spec fn rank(self) -> int {
        if self.sign_negative() {
            -self.magnitude()
        } else {
            self.magnitude()
        }
    }

    /// `self < other` as IEEE 754 has it: false as soon as either is a NaN.
    pub open spec fn spec_lt(self, other: Float) -> bool {
        !self.spec_is_nan() && !other.spec_is_nan() && self.rank() < other.rank()
    }

    /// `self <= other` as IEEE 754 has it.
    pub open spec fn spec_le(self, other: Float) -> bool {
        !self.spec_is_nan() && !other.spec_is_nan() && self.rank() <= other.rank()
    }

    /// `self > other` as IEEE 754 has it.
    pub open spec fn spec_gt(self, other: Float) -> bool {
        other.spec_lt(self)
    }

    /// `self >= other` as IEEE 754 has it.
    pub open spec fn spec_ge(self, other: Float) -> bool {
        other.spec_le(self)
    }

    /// The value with the sign bit flipped, a NaN included.
    pub open spec fn spec_neg(self) -> Float {
        if self.bits >= SIGN_BIT {
            Float { bits: (self.bits - SIGN_BIT) as u64 }
        } else {
            Float { bits: (self.bits + SIGN_BIT) as u64 }
        }
    }

    pub open spec fn spec_zero() -> Float {
        Float { bits: 0 }
    }

    pub open spec fn spec_infinity() -> Float {
        Float { bits: INFINITY_BITS }
    }

    pub open spec fn spec_nan() -> Float {
        Float { bits: NAN_BITS }
    }

    pub fn from_bits(bits: u64) -> (r: Float)
        ensures
            r == (Float { bits }),
    {
        Float { bits }
    }

    pub fn to_bits(self) -> (bits: u64)
        ensures
            bits == self.bits,
    {
        self.bits
    }

    /// Positive zero.
    #[verifier::when_used_as_spec(spec_zero)]
    pub fn zero() -> (r: Float)
        ensures
            r == Float::spec_zero(),
    {
        Float { bits: 0 }
    }

    /// Positive infinity.
    #[verifier::when_used_as_spec(spec_infinity)]
    pub fn infinity() -> (r: Float)
        ensures
            r == Float::spec_infinity(),
    {
        Float { bits: INFINITY_BITS }
    }

    /// The quiet NaN that marks a value as not set.
    #[verifier::when_used_as_spec(spec_nan)]
    pub fn nan() -> (r: Float)
        ensures
            r == Float::spec_nan(),
    {
        Float { bits: NAN_BITS }
    }

    #[verifier::when_used_as_spec(spec_is_nan)]
    pub fn is_nan(self) -> (b: bool)
        ensures
            b == self.spec_is_nan(),
    {
        self.bits % SIGN_BIT > INFINITY_BITS
    }

    #[verifier::when_used_as_spec(spec_is_infinite)]
    pub fn is_infinite(self) -> (b: bool)
        ensures
            b == self.spec_is_infinite(),
    {
        self.bits % SIGN_BIT == INFINITY_BITS
    }

    #[verifier::when_used_as_spec(spec_is_finite)]
    pub fn is_finite(self) -> (b: bool)
        ensures
            b == self.spec_is_finite(),
    {
        self.bits % SIGN_BIT < INFINITY_BITS
    }

    #[verifier::when_used_as_spec(spec_lt)]
    pub fn lt(self, other: Float) -> (b: bool)
        ensures
            b == self.spec_lt(other),
    {
        if self.is_nan() || other.is_nan() {
            return false;
        }
        let m: u64 = self.bits % SIGN_BIT;
        let n: u64 = other.bits % SIGN_BIT;
        if self.bits >= SIGN_BIT {
            if other.bits >= SIGN_BIT {
                n < m
            } else {
                m != 0 || n != 0
            }
        } else {
            other.bits < SIGN_BIT && m < n
        }
    }

    #[verifier::when_used_as_spec(spec_le)]
    pub fn le(self, other: Float) -> (b: bool)
        ensures
            b == self.spec_le(other),
    {
        if self.is_nan() || other.is_nan() {
            return false;
        }
        let m: u64 = self.bits % SIGN_BIT;
        let n: u64 = other.bits % SIGN_BIT;
        if self.bits >= SIGN_BIT {
            other.bits < SIGN_BIT || n <= m
        } else if other.bits >= SIGN_BIT {
            m == 0 && n == 0
        } else {
            m <= n
        }
    }

    #[verifier::when_used_as_spec(spec_gt)]
    pub fn gt(self, other: Float) -> (b: bool)
        ensures
            b == self.spec_gt(other),
    {
        other.lt(self)
    }

    #[verifier::when_used_as_spec(spec_ge)]
    pub fn ge(self, other: Float) -> (b: bool)
        ensures
            b == self.spec_ge(other),
    {
        other.le(self)
    }

    #[verifier::when_used_as_spec(spec_neg)]
    pub fn neg(self) -> (r: Float)
        ensures
            r == self.spec_neg(),
    {
        if self.bits >= SIGN_BIT {
            Float { bits: self.bits - SIGN_BIT }
        } else {
            Float { bits: self.bits + SIGN_BIT }
        }
    }
}

/// `<` is a strict order: nothing is below itself, and it is transitive.
pub proof fn lemma_lt_strict_order(x: Float, y: Float, z: Float)
    ensures
        !x.spec_lt(x),
        x.spec_lt(y) ==> !y.spec_lt(x),
        x.spec_lt(y) && y.spec_lt(z) ==> x.spec_lt(z),
{
}

/// Of two values that are not NaN exactly one of `<`, `>` and "equal in
/// value" holds, and `<=` is `<` or equal in value.
pub proof fn lemma_total_without_nan(x: Float, y: Float)
    requires
        !x.spec_is_nan(),
        !y.spec_is_nan(),
    ensures
        x.spec_lt(y) || y.spec_lt(x) || x.rank() == y.rank(),
        x.spec_le(y) <==> !y.spec_lt(x),
        x.spec_le(y) <==> (x.spec_lt(y) || x.rank() == y.rank()),
{
}

} // verus!
