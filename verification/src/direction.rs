//! Positions of the sound source, and how two of them are compared.
//!
//! A coordinate is kept as the bit pattern of an IEEE 754 single-precision
//! number. Two coordinates are the same number when the patterns denote equal
//! numbers: positive and negative zero are equal, and a NaN equals nothing,
//! not even itself.

use vstd::prelude::*;

verus! {

/// The eight exponent bits of a single-precision bit pattern.
pub open spec fn exponent_field(bits: u32) -> int {
    (bits as int / 0x80_0000) % 0x100
}

/// The twenty-three fraction bits of a single-precision bit pattern.
pub open spec fn fraction_field(bits: u32) -> int {
    bits as int % 0x80_0000
}

/// The pattern denotes no number: all exponent bits set, fraction not zero.
pub open spec fn is_nan(bits: u32) -> bool {
    exponent_field(bits) == 0xff && fraction_field(bits) != 0
}

/// The pattern denotes zero, of either sign.
pub open spec fn is_zero(bits: u32) -> bool {
    exponent_field(bits) == 0 && fraction_field(bits) == 0
}

/// The two patterns denote equal numbers.
pub open spec fn same_number(a: u32, b: u32) -> bool {
    &&& !is_nan(a)
    &&& !is_nan(b)
    &&& (a == b || (is_zero(a) && is_zero(b)))
}

/// The pattern with its sign bit cleared is above the pattern of infinity
/// exactly when it denotes no number, and is zero exactly when it denotes zero.
pub proof fn lemma_magnitude(bits: u32)
    ensures
        is_nan(bits) <==> (bits & 0x7fff_ffff) > 0x7f80_0000,
        is_zero(bits) <==> (bits & 0x7fff_ffff) == 0,
{
    assert(((bits / 0x80_0000) % 0x100 == 0xff && bits % 0x80_0000 != 0) <==> (bits
        & 0x7fff_ffff) > 0x7f80_0000) by (bit_vector);
    assert(((bits / 0x80_0000) % 0x100 == 0 && bits % 0x80_0000 == 0) <==> (bits & 0x7fff_ffff)
        == 0) by (bit_vector);
}

/// Compares two coordinates as numbers.
pub fn coordinate_eq(a: u32, b: u32) -> (same: bool)
    ensures
        same == same_number(a, b),
{
    proof {
        lemma_magnitude(a);
        lemma_magnitude(b);
    }
    let magnitude_a: u32 = a & 0x7fff_ffff;
    let magnitude_b: u32 = b & 0x7fff_ffff;
    if magnitude_a > 0x7f80_0000 || magnitude_b > 0x7f80_0000 {
        false
    } else {
        a == b || (magnitude_a == 0 && magnitude_b == 0)
    }
}

/// A position relative to the listener, in Cartesian coordinates.
///
/// `==` compares the bit patterns; [`Direction::same_position`] compares the
/// numbers that they denote.
#[derive(Clone, Copy, Debug, PartialEq, Eq, Structural)]
pub struct Direction {
    /// Forward, as a single-precision bit pattern.
    pub x: u32,
    /// To the left, as a single-precision bit pattern.
    pub y: u32,
    /// Upward, as a single-precision bit pattern.
    pub z: u32,
}

impl Direction {
    /// The position with the given coordinate bit patterns.
    pub fn from_bits(x: u32, y: u32, z: u32) -> (direction: Direction)
        ensures
            direction == (Direction { x, y, z }),
    {
        Direction { x, y, z }
    }

    /// None of the three coordinates is a NaN.
    pub open spec fn is_numeric(self) -> bool {
        !is_nan(self.x) && !is_nan(self.y) && !is_nan(self.z)
    }

    /// The two positions agree in all three coordinates, compared as numbers.
    pub open spec fn coincides(self, other: Direction) -> bool {
        &&& same_number(self.x, other.x)
        &&& same_number(self.y, other.y)
        &&& same_number(self.z, other.z)
    }

    /// Whether the two positions agree in all three coordinates.
    pub fn same_position(&self, other: &Direction) -> (same: bool)
        ensures
            same == self.coincides(*other),
    {
        coordinate_eq(self.x, other.x) && coordinate_eq(self.y, other.y) && coordinate_eq(
            self.z,
            other.z,
        )
    }
}

/// A position coincides with itself exactly when it holds no NaN.
pub proof fn lemma_coincides_reflexive(d: Direction)
    ensures
        d.coincides(d) <==> d.is_numeric(),
{
}

/// Coinciding does not depend on the order of the two positions.
pub proof fn lemma_coincides_symmetric(a: Direction, b: Direction)
    ensures
        a.coincides(b) == b.coincides(a),
{
}

/// Positions that coincide with a common third one coincide with each other.
pub proof fn lemma_coincides_transitive(a: Direction, b: Direction, c: Direction)
    requires
        a.coincides(b),
        b.coincides(c),
    ensures
        a.coincides(c),
{
}

} // verus!
