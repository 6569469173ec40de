//! Single-precision numbers as their IEEE 754 bit patterns.
//!
//! The library never computes with such a number; it only has to tell
//! whether two of them are equal as numbers, which the patterns decide.

use vstd::prelude::*;

verus! {

/// Bit pattern of the single 1.0.
pub const ONE: u32 = 0x3F80_0000;

/// Bit pattern of positive infinity; every pattern whose magnitude is
/// above it is a NaN.
pub const INFINITY: u32 = 0x7F80_0000;

/// The pattern without its sign bit.
pub open spec fn magnitude(bits: u32) -> u32 {
    (bits % 0x8000_0000) as u32
}

/// Whether the pattern is not a number.
pub open spec fn is_nan(bits: u32) -> bool {
    magnitude(bits) > INFINITY
}

/// Whether two patterns are equal as numbers: neither is a NaN, and they are
/// the same pattern or both a zero, of either sign.
pub open spec fn float_eq(a: u32, b: u32) -> bool {
    &&& !is_nan(a)
    &&& !is_nan(b)
    &&& (a == b || (magnitude(a) == 0 && magnitude(b) == 0))
}

/// Tells whether two patterns are equal as numbers.
pub fn same_number(a: u32, b: u32) -> (r: bool)
    ensures
        r == float_eq(a, b),
{
    assert(a & 0x7fff_ffff == a % 0x8000_0000) by (bit_vector);
    assert(b & 0x7fff_ffff == b % 0x8000_0000) by (bit_vector);
    let ma: u32 = a & 0x7fff_ffff;
    let mb: u32 = b & 0x7fff_ffff;
    ma <= INFINITY && mb <= INFINITY && (a == b || (ma == 0 && mb == 0))
}

} // verus!
