//! Double-precision numbers, held as their IEEE 754 bit patterns, and the
//! comparisons between them.

use vstd::prelude::*;

verus! {

/// The bit that holds the sign.
pub const SIGN_BIT: u64 = 0x8000_0000_0000_0000;

/// The bit pattern of positive infinity.
pub const INFINITY_BITS: u64 = 0x7FF0_0000_0000_0000;

/// A double-precision number, as its IEEE 754 bits.
#[derive(Clone, Copy, Debug, PartialEq, Eq, Hash, Structural)]
pub struct Number {
    pub bits: u64,
}

impl Number {
    /// Whether the sign bit is set.
    pub open spec fn is_negative_spec(self) -> bool {
        self.bits >= SIGN_BIT
    }

    /// The bits below the sign, which order numbers of one sign by their size.
    pub open spec fn magnitude(self) -> int {
        if self.is_negative_spec() {
            self.bits - SIGN_BIT
        } else {
            self.bits as int
        }
    }

    /// Whether this is not a number.
    pub open spec fn nan(self) -> bool {
        self.magnitude() > INFINITY_BITS
    }

    /// Whether this is neither infinite nor NaN.
    pub open spec fn finite(self) -> bool {
        self.magnitude() < INFINITY_BITS
    }

    /// The place of a number among the others. Both zeros have place 0.
    pub open spec fn rank(self) -> int {
        if self.is_negative_spec() {
            -self.magnitude()
        } else {
            self.magnitude()
        }
    }

    /// IEEE `<`: false where either side is NaN.
    pub open spec fn lt(self, other: Number) -> bool {
        !self.nan() && !other.nan() && self.rank() < other.rank()
    }

    /// IEEE `<=`: false where either side is NaN.
    pub open spec fn le(self, other: Number) -> bool {
        !self.nan() && !other.nan() && self.rank() <= other.rank()
    }

    fn size(self) -> (r: u64)
        ensures
            r == self.magnitude(),
    {
        if self.bits >= SIGN_BIT {
            self.bits - SIGN_BIT
        } else {
            self.bits
        }
    }

    /// The number with this bit pattern.
    pub fn from_bits(bits: u64) -> (r: Number)
        ensures
            r.bits == bits,
    {
        Number { bits }
    }

    /// Whether this is not a number.
    pub fn is_nan(self) -> (r: bool)
        ensures
            r == self.nan(),
    {
        self.size() > INFINITY_BITS
    }

    /// Whether this is neither infinite nor NaN.
    pub fn is_finite(self) -> (r: bool)
        ensures
            r == self.finite(),
    {
        self.size() < INFINITY_BITS
    }

    /// Whether the sign bit is set.
    pub fn is_negative(self) -> (r: bool)
        ensures
            r == self.is_negative_spec(),
    {
        self.bits >= SIGN_BIT
    }

    fn place(self) -> (r: i64)
        ensures
            r == self.rank(),
    {
        if self.bits >= SIGN_BIT {
            -(self.size() as i64)
        } else {
            self.bits as i64
        }
    }

    /// IEEE `<`.
    pub fn less(self, other: Number) -> (r: bool)
        ensures
            r == self.lt(other),
    {
        !self.is_nan() && !other.is_nan() && self.place() < other.place()
    }

    /// IEEE `<=`.
    pub fn at_most(self, other: Number) -> (r: bool)
        ensures
            r == self.le(other),
    {
        !self.is_nan() && !other.is_nan() && self.place() <= other.place()
    }
}

/// Numbers are ordered as IEEE 754 orders them: a NaN stands in no order, the two zeros
/// are one, a negative number comes before a positive one, and of one sign the greater
/// bits are further from zero.
pub proof fn numbers_are_ordered_by_sign_and_size(a: Number, b: Number)
    ensures
        a.bits % 0x8000_0000_0000_0000 > 0x7FF0_0000_0000_0000 ==> !a.lt(b) && !a.le(b) && !b.lt(a)
            && !b.le(a),
        a.bits <= 0x7FF0_0000_0000_0000 && b.bits <= 0x7FF0_0000_0000_0000 ==> {
            &&& a.lt(b) <==> a.bits < b.bits
            &&& a.le(b) <==> a.bits <= b.bits
        },
        0x8000_0000_0000_0000 <= a.bits <= 0xFFF0_0000_0000_0000 && 0x8000_0000_0000_0000 <= b.bits
            <= 0xFFF0_0000_0000_0000 ==> {
            &&& a.lt(b) <==> a.bits > b.bits
            &&& a.le(b) <==> a.bits >= b.bits
        },
        0x8000_0000_0000_0000 <= a.bits <= 0xFFF0_0000_0000_0000 && b.bits <= 0x7FF0_0000_0000_0000
            ==> {
            &&& a.le(b)
            &&& a.lt(b) <==> !(a.bits == 0x8000_0000_0000_0000 && b.bits == 0)
            &&& !b.lt(a)
            &&& b.le(a) <==> a.bits == 0x8000_0000_0000_0000 && b.bits == 0
        },
{
}

/// A number is finite unless all the bits of its exponent are set, and NaN where a bit
/// behind them is set too.
pub proof fn a_full_exponent_is_not_finite(a: Number)
    ensures
        a.finite() <==> a.bits % 0x8000_0000_0000_0000 < 0x7FF0_0000_0000_0000,
        a.nan() <==> a.bits % 0x8000_0000_0000_0000 > 0x7FF0_0000_0000_0000,
{
}

} // verus!
