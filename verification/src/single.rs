//! Single-precision values, carried by their bit patterns.
//!
//! Gains, pans, levels and rates come from the audio side as IEEE 754 single
//! precision. The client stores them, hands them on and now and then compares
//! two of them; it never does arithmetic on them. So a value is kept as its
//! bits, and what comparing means is said over the bits: below the sign bit
//! the bit pattern of a number grows with the number.

use vstd::prelude::*;

verus! {

#[derive(Debug, Clone, Copy, PartialEq, Eq, Structural)]
pub struct Single {
    /// The value as `to_bits` gives it.
    pub bits: u32,
}

impl Single {
    /// The pattern below the sign bit, which grows with the absolute value.
    pub open spec fn magnitude(self) -> int {
        self.bits as int % 0x8000_0000
    }

    /// Not a number at all: past the pattern of infinity.
    pub open spec fn nan(self) -> bool {
        self.magnitude() > 0x7f80_0000
    }

    /// Where a number stands among the numbers. The two zeros share a place.
    pub open spec fn rank(self) -> int {
        if self.bits >= 0x8000_0000 {
            -self.magnitude()
        } else {
            self.magnitude()
        }
    }

    /// Whether the two are the same number, as `==` on floats means it: a
    /// value that is not a number equals nothing, and the zeros are equal.
    pub open spec fn equals(self, other: Single) -> bool {
        !self.nan() && !other.nan() && self.rank() == other.rank()
    }

    /// Whether this is the larger number, as `>` on floats means it.
    pub open spec fn exceeds(self, other: Single) -> bool {
        !self.nan() && !other.nan() && self.rank() > other.rank()
    }

    /// The larger of two, passing over a value that is not a number.
    pub open spec fn larger(self, other: Single) -> Single {
        if self.nan() || other.exceeds(self) {
            other
        } else {
            self
        }
    }

    /// Positive zero.
    pub fn zero() -> (z: Single)
        ensures
            z.bits == 0,
    {
        Single { bits: 0 }
    }

    pub fn is_nan(self) -> (b: bool)
        ensures
            b == self.nan(),
    {
        self.bits % 0x8000_0000 > 0x7f80_0000
    }

    fn place(self) -> (r: i64)
        ensures
            r == self.rank(),
    {
        let magnitude: i64 = (self.bits % 0x8000_0000) as i64;
        if self.bits >= 0x8000_0000 {
            -magnitude
        } else {
            magnitude
        }
    }

    pub fn same(self, other: Single) -> (b: bool)
        ensures
            b == self.equals(other),
    {
        !self.is_nan() && !other.is_nan() && self.place() == other.place()
    }

    pub fn over(self, other: Single) -> (b: bool)
        ensures
            b == self.exceeds(other),
    {
        !self.is_nan() && !other.is_nan() && self.place() > other.place()
    }

    pub fn max(self, other: Single) -> (m: Single)
        ensures
            m == self.larger(other),
    {
        if self.is_nan() || other.over(self) {
            other
        } else {
            self
        }
    }
}

/// The larger of two is not exceeded by either, and it is one of the two.
pub proof fn the_larger_is_one_of_the_two(a: Single, b: Single)
    ensures
        a.larger(b) == a || a.larger(b) == b,
        !a.exceeds(a.larger(b)),
        !b.exceeds(a.larger(b)),
        !a.nan() || !b.nan() ==> !a.larger(b).nan(),
{
}

/// The bits order the numbers: above zero a larger pattern is a larger number,
/// below zero it is a smaller one, no negative number exceeds a positive one,
/// and the two zeros are one number. The pattern of infinity is the last that
/// is a number.
pub proof fn the_bits_order_the_numbers(a: Single, b: Single)
    ensures
        a.nan() <==> a.bits > 0x7f80_0000 && a.bits < 0x8000_0000 || a.bits > 0xff80_0000,
        !a.nan() && !b.nan() && a.bits < 0x8000_0000 && b.bits < 0x8000_0000 ==> (a.exceeds(b)
            <==> a.bits > b.bits),
        !a.nan() && !b.nan() && a.bits >= 0x8000_0000 && b.bits >= 0x8000_0000 ==> (a.exceeds(b)
            <==> a.bits < b.bits),
        !a.nan() && !b.nan() && a.bits < 0x8000_0000 && b.bits >= 0x8000_0000 ==> !b.exceeds(a)
            && (a.exceeds(b) <==> !(a.bits == 0 && b.bits == 0x8000_0000)),
{
}

/// Of two numbers exactly one holds: they are equal, or one of them is the
/// larger. A value that is not a number is neither.
pub proof fn numbers_are_equal_or_one_is_larger(a: Single, b: Single)
    ensures
        a.equals(b) == b.equals(a),
        !a.nan() && !b.nan() ==> (a.equals(b) <==> !a.exceeds(b) && !b.exceeds(a)),
        !(a.exceeds(b) && b.exceeds(a)),
        a.nan() || b.nan() ==> !a.equals(b) && !a.exceeds(b) && !b.exceeds(a),
        a.nan() && !b.nan() ==> a.larger(b) == b && b.larger(a) == b,
{
}

} // verus!
