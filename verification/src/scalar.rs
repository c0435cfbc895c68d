//! Single-precision quantities, held by their IEEE-754 bit pattern.
//!
//! Lengths, radii and times of the configuration are binary32 values. The
//! library never does arithmetic on them: it stores them, hands them on, and
//! compares them. Comparisons are defined on the bit pattern.

use vstd::prelude::*;

verus! {

/// The sign bit of a binary32 value.
pub const SIGN_BIT: u32 = 0x8000_0000;

/// The bit pattern of positive infinity: all exponent bits set, no fraction bit.
pub const INFINITY_BITS: u32 = 0x7F80_0000;

/// The bit pattern of negative infinity.
pub const NEG_INFINITY_BITS: u32 = 0xFF80_0000;

/// A binary32 value, identified by its bit pattern.
#[derive(Clone, Copy, Debug, PartialEq, Eq, Structural)]
pub struct Scalar {
    pub bits: u32,
}

impl Scalar {
    /// The pattern without its sign bit.
    pub open spec fn magnitude(self) -> int {
        if self.bits >= SIGN_BIT {
            self.bits - SIGN_BIT
        } else {
            self.bits as int
        }
    }

    /// Not a number: the exponent is all ones and the fraction is not zero.
    pub open spec fn is_nan(self) -> bool {
        self.magnitude() > INFINITY_BITS
    }

    /// Positive or negative infinity.
    pub open spec fn is_infinite(self) -> bool {
        self.magnitude() == INFINITY_BITS
    }

    /// Where the value lies on the number line, for a value that is a number.
    /// Both zeros lie at 0; a larger magnitude lies further from 0.
    pub open spec fn rank(self) -> int {
        if self.bits >= SIGN_BIT {
            -self.magnitude()
        } else {
            self.magnitude()
        }
    }

    /// `self < other` as binary32 compares: false as soon as one side is not a number.
    pub open spec fn spec_lt(self, other: Scalar) -> bool {
        !self.is_nan() && !other.is_nan() && self.rank() < other.rank()
    }

    /// `self <= other` as binary32 compares.
    pub open spec fn spec_le(self, other: Scalar) -> bool {
        !self.is_nan() && !other.is_nan() && self.rank() <= other.rank()
    }

    /// `self > other` as binary32 compares.
    pub open spec fn spec_gt(self, other: Scalar) -> bool {
        other.spec_lt(self)
    }

    /// `self > 0.0`.
    pub open spec fn is_positive(self) -> bool {
        0 < self.bits && self.bits <= INFINITY_BITS
    }

    /// `self <= 0.0`: a zero of either sign, or a negative number.
    pub open spec fn is_zero_or_negative(self) -> bool {
        self.bits == 0 || (SIGN_BIT <= self.bits && self.bits <= NEG_INFINITY_BITS)
    }

    /// `self < 0.0`.
    pub open spec fn is_negative(self) -> bool {
        SIGN_BIT < self.bits && self.bits <= NEG_INFINITY_BITS
    }

    pub open spec fn zero() -> Scalar {
        Scalar { bits: 0 }
    }

    pub open spec fn infinity() -> Scalar {
        Scalar { bits: INFINITY_BITS }
    }

    pub open spec fn neg_infinity() -> Scalar {
        Scalar { bits: NEG_INFINITY_BITS }
    }

    /// The value with the given bit pattern.
    pub fn from_bits(bits: u32) -> (r: Scalar)
        ensures
            r.bits == bits,
    {
        Scalar { bits }
    }

    /// The bit pattern of the value.
    pub fn to_bits(self) -> (r: u32)
        ensures
            r == self.bits,
    {
        self.bits
    }

    /// Positive zero.
    pub fn new_zero() -> (r: Scalar)
        ensures
            r == Scalar::zero(),
    {
        Scalar { bits: 0 }
    }

    /// Positive infinity.
    pub fn new_infinity() -> (r: Scalar)
        ensures
            r == Scalar::infinity(),
    {
        Scalar { bits: INFINITY_BITS }
    }

    /// Negative infinity.
    pub fn new_neg_infinity() -> (r: Scalar)
        ensures
            r == Scalar::neg_infinity(),
    {
        Scalar { bits: NEG_INFINITY_BITS }
    }

    fn exec_magnitude(self) -> (r: u32)
        ensures
            r == self.magnitude(),
    {
        if self.bits >= SIGN_BIT {
            self.bits - SIGN_BIT
        } else {
            self.bits
        }
    }

    fn exec_rank(self) -> (r: i64)
        ensures
            r == self.rank(),
    {
        let m: u32 = self.exec_magnitude();
        if self.bits >= SIGN_BIT {
            -(m as i64)
        } else {
            m as i64
        }
    }

    /// Whether the value is not a number.
    pub fn nan(self) -> (r: bool)
        ensures
            r == self.is_nan(),
    {
        self.exec_magnitude() > INFINITY_BITS
    }

    /// Whether the value is an infinity of either sign.
    pub fn infinite(self) -> (r: bool)
        ensures
            r == self.is_infinite(),
    {
        self.exec_magnitude() == INFINITY_BITS
    }

    /// `self < other`.
    pub fn lt(self, other: Scalar) -> (r: bool)
        ensures
            r == self.spec_lt(other),
    {
        !self.nan() && !other.nan() && self.exec_rank() < other.exec_rank()
    }

    /// `self <= other`.
    pub fn le(self, other: Scalar) -> (r: bool)
        ensures
            r == self.spec_le(other),
    {
        !self.nan() && !other.nan() && self.exec_rank() <= other.exec_rank()
    }

    /// `self > other`.
    pub fn gt(self, other: Scalar) -> (r: bool)
        ensures
            r == self.spec_gt(other),
    {
        other.lt(self)
    }

    /// `self > 0.0`.
    pub fn positive(self) -> (r: bool)
        ensures
            r == self.is_positive(),
            r == self.spec_gt(Scalar::zero()),
    {
        proof {
            lemma_sign_tests(self);
        }
        0 < self.bits && self.bits <= INFINITY_BITS
    }

    /// `self <= 0.0`.
    pub fn zero_or_negative(self) -> (r: bool)
        ensures
            r == self.is_zero_or_negative(),
            r == self.spec_le(Scalar::zero()),
    {
        proof {
            lemma_sign_tests(self);
        }
        self.bits == 0 || (SIGN_BIT <= self.bits && self.bits <= NEG_INFINITY_BITS)
    }

    /// `self < 0.0`.
    pub fn negative(self) -> (r: bool)
        ensures
            r == self.is_negative(),
            r == self.spec_lt(Scalar::zero()),
    {
        proof {
            lemma_sign_tests(self);
        }
        SIGN_BIT < self.bits && self.bits <= NEG_INFINITY_BITS
    }
}

/// The three sign tests agree with the comparison against zero.
pub proof fn lemma_sign_tests(x: Scalar)
    ensures
        x.is_positive() == x.spec_gt(Scalar::zero()),
        x.is_zero_or_negative() == x.spec_le(Scalar::zero()),
        x.is_negative() == x.spec_lt(Scalar::zero()),
        !x.is_nan() ==> (x.is_positive() != x.is_zero_or_negative()),
        x.is_nan() ==> !x.is_positive() && !x.is_zero_or_negative(),
{
}

} // verus!
