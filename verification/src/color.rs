//! Colours as 32-bit RGBA values, red in the top byte and alpha in the
//! lowest.

use vstd::prelude::*;

use crate::image::argb;
use crate::target::{color_argb, raqote_color};

verus! {

/// The red channel of an RGBA value.
pub open spec fn red(rgba: u32) -> u8 {
    (rgba / 0x100_0000) as u8
}

/// The green channel of an RGBA value.
pub open spec fn green(rgba: u32) -> u8 {
    ((rgba / 0x1_0000) % 0x100) as u8
}

/// The blue channel of an RGBA value.
pub open spec fn blue(rgba: u32) -> u8 {
    ((rgba / 0x100) % 0x100) as u8
}

/// The alpha channel of an RGBA value.
pub open spec fn alpha(rgba: u32) -> u8 {
    (rgba % 0x100) as u8
}

/// The four channels of an RGBA value: red, green, blue, alpha.
pub fn split_rgba(rgba: u32) -> (c: (u8, u8, u8, u8))
    ensures
        c.0 == red(rgba),
        c.1 == green(rgba),
        c.2 == blue(rgba),
        c.3 == alpha(rgba),
{
    assert(rgba >> 24 == rgba / 0x100_0000 && (rgba >> 24) < 0x100) by (bit_vector);
    assert((rgba >> 16) & 255 == (rgba / 0x1_0000) % 0x100) by (bit_vector);
    assert((rgba >> 8) & 255 == (rgba / 0x100) % 0x100) by (bit_vector);
    assert(rgba & 255 == rgba % 0x100) by (bit_vector);
    (
        (rgba >> 24) as u8,
        ((rgba >> 16) & 255) as u8,
        ((rgba >> 8) & 255) as u8,
        (rgba & 255) as u8,
    )
}

/// The `raqote` colour of an RGBA value: the same channels, with alpha moved
/// from the lowest byte to the top.
pub fn piet_color_to_raqote(rgba: u32) -> (c: raqote::Color)
    ensures
        color_argb(c) == argb(alpha(rgba), red(rgba), green(rgba), blue(rgba)),
{
    let c = split_rgba(rgba);
    raqote_color(c.3, c.0, c.1, c.2)
}

} // verus!
