//! The pixel buffer of `raqote` that the software backend draws into.

use raqote::DrawTarget;
use vstd::prelude::*;

use crate::image::argb;

verus! {

/// `raqote::DrawTarget`, of which only what the names below say is known.
#[verifier::external_type_specification]
#[verifier::external_body]
pub struct ExDrawTarget(DrawTarget);

/// `raqote::Color`, an unpremultiplied colour.
#[verifier::external_type_specification]
#[verifier::external_body]
pub struct ExRaqoteColor(raqote::Color);

/// The pixels of a draw target, row after row, each as premultiplied ARGB.
pub uninterp spec fn target_pixels(dt: DrawTarget) -> Seq<u32>;

/// The number of clips that are pushed on a draw target.
pub uninterp spec fn target_clips(dt: DrawTarget) -> nat;

/// The packed ARGB value that a `raqote::Color` holds.
pub uninterp spec fn color_argb(c: raqote::Color) -> u32;

/// Whether `DrawTarget::new` can make a target of this size: it multiplies
/// the two sides, and each side by four, in `i32`.
pub open spec fn target_size_ok(width: i32, height: i32) -> bool {
    &&& 0 <= width
    &&& 0 <= height
    &&& width * 4 <= i32::MAX
    &&& height * 4 <= i32::MAX
    &&& width * height <= i32::MAX
}

/// `DrawTarget::new`: a buffer of `width * height` zero pixels, with no clip
/// pushed.
#[verifier::external_body]
pub(crate) fn new_target(width: i32, height: i32) -> (dt: DrawTarget)
    requires
        target_size_ok(width, height),
    ensures
        target_pixels(dt) == Seq::new((width * height) as nat, |i: int| 0u32),
        target_clips(dt) == 0,
{
    DrawTarget::new(width, height)
}

/// `DrawTarget::get_data`: the pixels as they stand.
#[verifier::external_body]
pub(crate) fn target_data(dt: &DrawTarget) -> (data: &[u32])
    ensures
        data@ == target_pixels(*dt),
{
    dt.get_data()
}

/// `DrawTarget::clear` with the solid source made of the four channels.
/// With no clip pushed it writes the packed colour to every pixel; under a
/// clip it fills through the clip, and only the number of pixels is known.
#[verifier::external_body]
pub(crate) fn clear_target(dt: &mut DrawTarget, r: u8, g: u8, b: u8, a: u8)
    ensures
        target_clips(*final(dt)) == target_clips(*old(dt)),
        target_pixels(*final(dt)).len() == target_pixels(*old(dt)).len(),
        target_clips(*old(dt)) == 0 ==> forall|i: int|
            0 <= i < target_pixels(*final(dt)).len() ==> #[trigger] target_pixels(*final(dt))[i]
                == argb(a, r, g, b),
{
    dt.clear(raqote::SolidSource { r, g, b, a });
}

/// `Color::new`: the colour that packs alpha, red, green and blue, in that
/// order from the top byte down.
#[verifier::external_body]
pub(crate) fn raqote_color(a: u8, r: u8, g: u8, b: u8) -> (c: raqote::Color)
    ensures
        color_argb(c) == argb(a, r, g, b),
{
    raqote::Color::new(a, r, g, b)
}

} // verus!
