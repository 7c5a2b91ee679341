//! Single-precision numbers as the engine's decisions see them.
//!
//! The numeric kernels of a renderer run on hardware floating point. The
//! decisions taken on their results (is this cosine positive, did the
//! refraction vanish, which branch does this draw select) depend only on how
//! two numbers compare. A `Scalar` therefore carries a number by its IEEE 754
//! binary32 encoding, and every comparison is defined, and proved, on that
//! encoding.
use vstd::prelude::*;

verus! {

/// The encoding of positive zero.
pub const ZERO_BITS: u32 = 0;

/// The encoding of one.
pub const ONE_BITS: u32 = 0x3F80_0000;

/// The encoding of positive infinity; every larger magnitude is not a number.
pub const INFINITY_BITS: u32 = 0x7F80_0000;

/// The lowest encoding with the sign bit set, which is that of negative zero.
pub const SIGN_BIT: u32 = 0x8000_0000;

/// A binary32 number, held by its encoding: one sign bit, eight exponent bits,
/// twenty-three fraction bits.
#[derive(Clone, Copy, Debug)]
pub struct Scalar {
    pub bits: u32,
}

impl Scalar {
    /// The encoding without its sign bit. Among numbers it grows with the
    /// absolute value.
    pub open spec fn magnitude(self) -> int {
        self.bits as int % 0x8000_0000
    }

    /// Whether the sign bit is set.
    pub open spec fn sign_set(self) -> bool {
        self.bits >= 0x8000_0000u32
    }

    /// Whether the encoding stands for no number (exponent all ones and a
    /// fraction that is not zero).
    pub open spec fn nan(self) -> bool {
        self.magnitude() > 0x7F80_0000
    }

    /// An integer that orders as the encoded numbers do: both zeros have rank
    /// zero, positive numbers their magnitude, negative numbers its opposite.
    /// It has a meaning only where `nan()` is false.
    pub open spec fn rank(self) -> int {
        if self.sign_set() {
            -self.magnitude()
        } else {
            self.magnitude()
        }
    }

    /// `self < other` as IEEE 754 orders numbers: false when either is not a
    /// number.
    pub open spec fn less(self, other: Scalar) -> bool {
        !self.nan() && !other.nan() && self.rank() < other.rank()
    }

    /// `self <= other` as IEEE 754 orders numbers.
    pub open spec fn at_most(self, other: Scalar) -> bool {
        !self.nan() && !other.nan() && self.rank() <= other.rank()
    }

    /// `self == other` as IEEE 754 compares numbers: the two zeros are equal,
    /// and nothing equals what is not a number.
    pub open spec fn same(self, other: Scalar) -> bool {
        !self.nan() && !other.nan() && self.rank() == other.rank()
    }

    /// `self > 0`.
    pub open spec fn positive(self) -> bool {
        !self.nan() && self.rank() > 0
    }

    /// `self < 0`.
    pub open spec fn negative(self) -> bool {
        !self.nan() && self.rank() < 0
    }

    /// `self <= 0`.
    pub open spec fn non_positive(self) -> bool {
        !self.nan() && self.rank() <= 0
    }

    /// The encoding with its sign bit flipped: the opposite number.
    pub open spec fn opposite(self) -> Scalar {
        if self.sign_set() {
            Scalar { bits: (self.bits - 0x8000_0000) as u32 }
        } else {
            Scalar { bits: (self.bits + 0x8000_0000) as u32 }
        }
    }

    /// The encoding with its sign bit cleared: the absolute value.
    pub open spec fn absolute(self) -> Scalar {
        Scalar { bits: self.magnitude() as u32 }
    }

    /// The number with the given encoding.
    pub fn from_bits(bits: u32) -> (r: Scalar)
        ensures
            r.bits == bits,
    {
        Scalar { bits }
    }

    /// The encoding of the number.
    pub fn to_bits(self) -> (r: u32)
        ensures
            r == self.bits,
    {
        self.bits
    }

    /// Positive zero.
    pub fn zero() -> (r: Scalar)
        ensures
            r.bits == ZERO_BITS,
    {
        Scalar { bits: ZERO_BITS }
    }

    /// One.
    pub fn one() -> (r: Scalar)
        ensures
            r.bits == ONE_BITS,
    {
        Scalar { bits: ONE_BITS }
    }

    /// Positive infinity.
    pub fn infinity() -> (r: Scalar)
        ensures
            r.bits == INFINITY_BITS,
    {
        Scalar { bits: INFINITY_BITS }
    }

    fn magnitude_bits(self) -> (r: u32)
        ensures
            r == self.magnitude(),
            r < 0x8000_0000u32,
    {
        self.bits % SIGN_BIT
    }

    /// Whether the encoding stands for no number.
    pub fn is_nan(self) -> (r: bool)
        ensures
            r == self.nan(),
    {
        self.magnitude_bits() > INFINITY_BITS
    }

    /// Whether the number is a zero, of either sign.
    pub fn is_zero(self) -> (r: bool)
        ensures
            r == self.same(Scalar { bits: ZERO_BITS }),
            r == (self.magnitude() == 0),
    {
        self.magnitude_bits() == 0
    }

    /// `self > 0`.
    pub fn is_positive(self) -> (r: bool)
        ensures
            r == self.positive(),
            r == (Scalar { bits: ZERO_BITS }).less(self),
    {
        0 < self.bits && self.bits <= INFINITY_BITS
    }

    /// `self < 0`.
    pub fn is_negative(self) -> (r: bool)
        ensures
            r == self.negative(),
            r == self.less(Scalar { bits: ZERO_BITS }),
    {
        SIGN_BIT < self.bits && self.magnitude_bits() <= INFINITY_BITS
    }

    /// `self <= 0`.
    pub fn is_non_positive(self) -> (r: bool)
        ensures
            r == self.non_positive(),
            r == self.at_most(Scalar { bits: ZERO_BITS }),
    {
        !self.is_nan() && (self.bits >= SIGN_BIT || self.bits == 0)
    }

    /// `self < other`.
    pub fn lt(self, other: Scalar) -> (r: bool)
        ensures
            r == self.less(other),
    {
        if self.is_nan() || other.is_nan() {
            return false;
        }
        let a: u32 = self.magnitude_bits();
        let b: u32 = other.magnitude_bits();
        if self.bits >= SIGN_BIT {
            if other.bits >= SIGN_BIT {
                b < a
            } else {
                a > 0 || b > 0
            }
        } else {
            if other.bits >= SIGN_BIT {
                false
            } else {
                a < b
            }
        }
    }

    /// `self <= other`.
    pub fn le(self, other: Scalar) -> (r: bool)
        ensures
            r == self.at_most(other),
    {
        if self.is_nan() || other.is_nan() {
            return false;
        }
        !other.lt(self)
    }

    /// `self > other`.
    pub fn gt(self, other: Scalar) -> (r: bool)
        ensures
            r == other.less(self),
    {
        other.lt(self)
    }

    /// `self >= other`.
    pub fn ge(self, other: Scalar) -> (r: bool)
        ensures
            r == other.at_most(self),
    {
        other.le(self)
    }

    /// `self == other` as numbers.
    pub fn num_eq(self, other: Scalar) -> (r: bool)
        ensures
            r == self.same(other),
    {
        if self.is_nan() || other.is_nan() {
            return false;
        }
        self.bits == other.bits || (self.magnitude_bits() == 0 && other.magnitude_bits() == 0)
    }

    /// The opposite number. Negation changes the sign bit and nothing else.
    pub fn neg(self) -> (r: Scalar)
        ensures
            r == self.opposite(),
    {
        if self.bits >= SIGN_BIT {
            Scalar { bits: self.bits - SIGN_BIT }
        } else {
            Scalar { bits: self.bits + SIGN_BIT }
        }
    }

    /// The absolute value. It clears the sign bit and changes nothing else.
    pub fn abs(self) -> (r: Scalar)
        ensures
            r == self.absolute(),
    {
        Scalar { bits: self.magnitude_bits() }
    }
}

/// Among numbers, exactly one of `a < b`, `a == b`, `b < a` holds; with
/// something that is not a number, none does.
pub proof fn lemma_trichotomy(a: Scalar, b: Scalar)
    ensures
        a.nan() || b.nan() ==> !a.less(b) && !a.same(b) && !b.less(a),
        !a.nan() && !b.nan() ==> (a.less(b) && !a.same(b) && !b.less(a)) || (!a.less(b) && a.same(
            b,
        ) && !b.less(a)) || (!a.less(b) && !a.same(b) && b.less(a)),
        a.at_most(b) <==> a.less(b) || a.same(b),
{
}

/// `<` is transitive, and `<=` is.
pub proof fn lemma_order_transitive(a: Scalar, b: Scalar, c: Scalar)
    ensures
        a.less(b) && b.less(c) ==> a.less(c),
        a.at_most(b) && b.at_most(c) ==> a.at_most(c),
        a.less(b) && b.at_most(c) ==> a.less(c),
        a.at_most(b) && b.less(c) ==> a.less(c),
{
}

/// Negation reverses the order, keeps what is not a number as it is, and
/// undoes itself.
pub proof fn lemma_opposite(a: Scalar, b: Scalar)
    ensures
        a.opposite().nan() == a.nan(),
        a.opposite().opposite() == a,
        a.opposite().rank() == -a.rank(),
        a.less(b) <==> b.opposite().less(a.opposite()),
        a.positive() <==> a.opposite().negative(),
{
}

/// The absolute value is never negative, and is the number itself or its
/// opposite.
pub proof fn lemma_absolute(a: Scalar)
    ensures
        a.absolute().nan() == a.nan(),
        !a.absolute().negative(),
        a.absolute() == (if a.sign_set() {
            a.opposite()
        } else {
            a
        }),
{
}

} // verus!
