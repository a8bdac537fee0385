use vstd::prelude::*;

verus! {

/// Mask of the sign bit of an IEEE-754 binary64 number.
pub const SIGN_MASK: u64 = 0x8000_0000_0000_0000;

/// Mask of the exponent field of an IEEE-754 binary64 number.
pub const EXPONENT_MASK: u64 = 0x7ff0_0000_0000_0000;

/// Mask of the fraction field of an IEEE-754 binary64 number.
pub const FRACTION_MASK: u64 = 0x000f_ffff_ffff_ffff;

/// Whether the binary64 number with bit pattern `b` is a NaN: all exponent
/// bits set and a fraction that is not zero.
pub open spec fn is_nan(b: u64) -> bool {
    b & EXPONENT_MASK == EXPONENT_MASK && b & FRACTION_MASK != 0
}

/// Whether the binary64 number with bit pattern `b` is a zero of either sign.
pub open spec fn is_zero(b: u64) -> bool {
    b & !SIGN_MASK == 0
}

/// Numeric equality of two binary64 numbers given by their bit patterns: a NaN
/// equals nothing, the two zeros are equal, any other number equals itself.
pub open spec fn same_number(a: u64, b: u64) -> bool {
    !is_nan(a) && !is_nan(b) && (a == b || (is_zero(a) && is_zero(b)))
}

/// Numeric equality of two binary64 numbers given by their bit patterns.
pub fn number_eq(a: u64, b: u64) -> (r: bool)
    ensures
        r == same_number(a, b),
{
    let a_nan = a & EXPONENT_MASK == EXPONENT_MASK && a & FRACTION_MASK != 0;
    let b_nan = b & EXPONENT_MASK == EXPONENT_MASK && b & FRACTION_MASK != 0;
    !a_nan && !b_nan && (a == b || (a & !SIGN_MASK == 0 && b & !SIGN_MASK == 0))
}

/// A position in the plane. Each axis holds the bit pattern of an IEEE-754
/// binary64 number, so that positions pass through the library unchanged.
#[derive(Clone, Copy, PartialEq, Eq, Debug, Hash, Structural)]
pub struct Coord {
    pub x: u64,
    pub y: u64,
}

/// Whether neither axis of `c` is a NaN.
pub open spec fn is_ordinary(c: Coord) -> bool {
    !is_nan(c.x) && !is_nan(c.y)
}

/// Numeric equality of two positions, axis by axis.
pub open spec fn same_position(p: Coord, q: Coord) -> bool {
    same_number(p.x, q.x) && same_number(p.y, q.y)
}

impl Coord {
    /// The position with the given bit patterns on its two axes.
    pub fn new(x: u64, y: u64) -> (r: Coord)
        ensures
            r.x == x,
            r.y == y,
    {
        Coord { x, y }
    }

    /// Numeric equality of two positions, axis by axis.
    pub fn same_as(&self, other: &Coord) -> (r: bool)
        ensures
            r == same_position(*self, *other),
    {
        number_eq(self.x, other.x) && number_eq(self.y, other.y)
    }
}

} // verus!
