//! Bitmap targets of the software backend.

use raqote::DrawTarget;
use std::marker::PhantomData;
use vstd::prelude::*;
use vstd::slice::slice_to_vec;

use crate::affine::{affine_bits, identity_bits};
use crate::context::RaqoteRenderContext;
use crate::error::Error;
use crate::image::ImageFormat;
use crate::target::{new_target, target_clips, target_data, target_pixels, target_size_ok};

verus! {

/// Handle from which bitmap targets are made.
pub struct Device;

/// A bitmap that a render context can draw into and that gives its pixels
/// back at the end.
pub struct BitmapTarget<'a> {
    dt: DrawTarget,
    phantom: PhantomData<&'a ()>,
}

impl Device {
    pub fn new() -> (r: Result<Device, Error>)
        ensures
            r.is_ok(),
    {
        Ok(Device)
    }

    /// A bitmap of `width` by `height` pixels, all zero, with no clip.
    ///
    /// The two sides are taken as `i32`, as the target holds them.
    pub fn bitmap_target<'a>(&self, width: usize, height: usize) -> (r: Result<
        BitmapTarget<'a>,
        Error,
    >)
        requires
            target_size_ok(width as i32, height as i32),
        ensures
            r.is_ok(),
            target_pixels(r.unwrap().target()) == Seq::new(
                ((width as i32) * (height as i32)) as nat,
                |i: int| 0u32,
            ),
            target_clips(r.unwrap().target()) == 0,
    {
        let dt = new_target(
            #[verifier::truncate]
            (width as i32),
            #[verifier::truncate]
            (height as i32),
        );
        Ok(BitmapTarget { dt, phantom: PhantomData })
    }
}

impl<'a> BitmapTarget<'a> {
    /// The draw target that holds the pixels.
    pub closed spec fn target(&self) -> DrawTarget {
        self.dt
    }

    /// A render context that draws into this bitmap.
    pub fn render_context<'b>(&'b mut self) -> (ctx: RaqoteRenderContext<'b>)
        ensures
            ctx.ctx_stack.transforms().len() == 1,
            affine_bits(ctx.ctx_stack.transforms()[0]) == identity_bits(),
            *ctx.draw_target == old(self).target(),
            *final(ctx.draw_target) == final(self).target(),
    {
        RaqoteRenderContext::new(&mut self.dt)
    }

    /// The pixels of the bitmap, as premultiplied ARGB, row after row.
    ///
    /// Fails with [`Error::NotSupported`] exactly when another format than
    /// [`ImageFormat::RgbaPremul`] is asked for.
    pub fn into_raw_pixels(self, fmt: ImageFormat) -> (r: Result<Vec<u32>, Error>)
        ensures
            fmt != ImageFormat::RgbaPremul ==> r == Err::<Vec<u32>, Error>(Error::NotSupported),
            fmt == ImageFormat::RgbaPremul ==> r.is_ok() && r.unwrap()@ == target_pixels(
                self.target(),
            ),
    {
        if fmt != ImageFormat::RgbaPremul {
            return Err(Error::NotSupported);
        }
        Ok(slice_to_vec(target_data(&self.dt)))
    }
}

} // verus!
