//! The state of the GPU backend between frames, and what a frame has to
//! bring up to date before it draws.

use vstd::prelude::*;

use crate::batch::{
    fits_buffers, is_prepared, store_after, texture_is_stored, BatchList, MeshSize, PreparedBatch,
    WgpuBrush,
};
use crate::error::Error;
use crate::float_bits::{float_eq, same_number, ONE};
use crate::gradient::{all_distinct, GradientStore};

verus! {

/// Opaque white, as RGBA.
pub const WHITE: u32 = 0xFFFF_FFFF;

/// The 4 by 4 matrix that changes nothing, as the bit patterns of its
/// singles.
pub open spec fn identity_matrix() -> Seq<u32> {
    seq![ONE, 0, 0, 0, 0, ONE, 0, 0, 0, 0, ONE, 0, 0, 0, 0, ONE]
}

/// Whether two matrices are equal as numbers, entry by entry.
pub open spec fn matrices_equal(a: Seq<u32>, b: Seq<u32>) -> bool {
    forall|i: int| 0 <= i < 16 ==> float_eq(#[trigger] a[i], b[i])
}

/// What the GPU backend keeps from frame to frame.
pub struct WgpuCtx {
    /// The colour that a frame starts from, as RGBA.
    pub clear_color: u32,
    /// Width and height of the multisampled texture that frames are drawn
    /// into.
    pub current_size: (u32, u32),
    /// The projection that is in the transform buffer, as the bit patterns
    /// of its singles.
    pub current_transform: [u32; 16],
    pub batch_list: BatchList,
    pub gradient_store: GradientStore,
}

/// What a frame has to do before it draws its batches.
#[derive(Debug)]
pub struct RenderPlan {
    /// Whether the projection has to be copied into the transform buffer.
    pub upload_transform: bool,
    /// Whether the multisampled texture has to be made anew, in the size of
    /// the frame.
    pub resize_target: bool,
    /// What each batch needs, in the order in which the batches are drawn.
    pub batches: Vec<PreparedBatch>,
}

fn same_matrix(a: &[u32; 16], b: &[u32; 16]) -> (r: bool)
    ensures
        r == matrices_equal(a@, b@),
{
    let mut i: usize = 0;
    while i < 16
        invariant
            i <= 16,
            forall|k: int| 0 <= k < i ==> float_eq(#[trigger] a@[k], b@[k]),
        decreases 16 - i,
    {
        if !same_number(a[i], b[i]) {
            return false;
        }
        i += 1;
    }
    true
}

impl WgpuCtx {
    /// The state before the first frame: a white background, the identity
    /// in the transform buffer, no batch and no gradient.
    pub fn new(width: u32, height: u32) -> (ctx: WgpuCtx)
        ensures
            ctx.clear_color == WHITE,
            ctx.current_size == (width, height),
            ctx.current_transform@ == identity_matrix(),
            ctx.batch_list@.len() == 0,
            ctx.gradient_store@.len() == 0,
    {
        let current_transform: [u32; 16] = [ONE, 0, 0, 0, 0, ONE, 0, 0, 0, 0, ONE, 0, 0, 0, 0, ONE];
        assert(current_transform@ =~= identity_matrix());
        WgpuCtx {
            clear_color: WHITE,
            current_size: (width, height),
            current_transform,
            batch_list: BatchList::new(),
            gradient_store: GradientStore::new(),
        }
    }
}

/// The text factory of the GPU backend, which has no text support yet.
pub struct WgpuText;

/// A laid-out text of the GPU backend.
pub struct WgpuTextLayout;

/// Builder of a [`WgpuFont`].
pub struct WgpuFontBuilder;

/// A font of the GPU backend.
pub struct WgpuFont;

/// Builder of a [`WgpuTextLayout`].
pub struct WgpuTextLayoutBuilder;

/// The render context of the GPU backend.
pub struct WgpuRenderContext {
    pub wgpu_ctx: WgpuCtx,
}

impl WgpuRenderContext {
    pub fn new(width: u32, height: u32) -> (ctx: WgpuRenderContext)
        ensures
            ctx.wgpu_ctx.clear_color == WHITE,
            ctx.wgpu_ctx.current_size == (width, height),
            ctx.wgpu_ctx.current_transform@ == identity_matrix(),
            ctx.wgpu_ctx.batch_list@.len() == 0,
            ctx.wgpu_ctx.gradient_store@.len() == 0,
    {
        WgpuRenderContext { wgpu_ctx: WgpuCtx::new(width, height) }
    }

    /// Plans a frame of `width` by `height` pixels under `projection`;
    /// `meshes` gives the size of the mesh of each batch.
    ///
    /// The projection is uploaded exactly when it differs, as numbers, from
    /// the one in the transform buffer, and is then remembered. The
    /// multisampled texture is resized exactly when the size of the frame
    /// differs from the remembered one, which then becomes the frame's.
    /// Every batch is prepared, in order: its copy sizes are computed, and
    /// the texture of its gradient is looked up in the gradient store, which
    /// takes in the gradients that are new.
    pub fn render(
        &mut self,
        projection: [u32; 16],
        width: u32,
        height: u32,
        meshes: &[MeshSize],
    ) -> (plan: RenderPlan)
        requires
            meshes@.len() == old(self).wgpu_ctx.batch_list@.len(),
            forall|i: int|
                0 <= i < meshes@.len() ==> fits_buffers(
                    (#[trigger] meshes@[i]).vertices as nat,
                    meshes@[i].indices as nat,
                    old(self).wgpu_ctx.batch_list@[i].len(),
                ),
        ensures
            plan.upload_transform == !matrices_equal(
                old(self).wgpu_ctx.current_transform@,
                projection@,
            ),
            plan.resize_target == (old(self).wgpu_ctx.current_size != (width, height)),
            final(self).wgpu_ctx.current_transform == if plan.upload_transform {
                projection
            } else {
                old(self).wgpu_ctx.current_transform
            },
            final(self).wgpu_ctx.current_size == (width, height),
            final(self).wgpu_ctx.clear_color == old(self).wgpu_ctx.clear_color,
            final(self).wgpu_ctx.batch_list == old(self).wgpu_ctx.batch_list,
            final(self).wgpu_ctx.gradient_store@ == store_after(
                old(self).wgpu_ctx.batch_list@,
                old(self).wgpu_ctx.gradient_store@,
            ),
            plan.batches@.len() == meshes@.len(),
            forall|i: int|
                0 <= i < meshes@.len() ==> is_prepared(
                    #[trigger] plan.batches@[i],
                    old(self).wgpu_ctx.batch_list@[i],
                    meshes@[i],
                    store_after(
                        old(self).wgpu_ctx.batch_list@.take(i),
                        old(self).wgpu_ctx.gradient_store@,
                    ),
                ),
            forall|i: int|
                0 <= i < meshes@.len() ==> texture_is_stored(
                    #[trigger] plan.batches@[i],
                    old(self).wgpu_ctx.batch_list@[i],
                    final(self).wgpu_ctx.gradient_store@,
                ),
            all_distinct(old(self).wgpu_ctx.gradient_store@) ==> all_distinct(
                final(self).wgpu_ctx.gradient_store@,
            ),
    {
        let upload_transform = !same_matrix(&self.wgpu_ctx.current_transform, &projection);
        if upload_transform {
            self.wgpu_ctx.current_transform = projection;
        }
        let resize_target = self.wgpu_ctx.current_size.0 != width || self.wgpu_ctx.current_size.1
            != height;
        if resize_target {
            self.wgpu_ctx.current_size = (width, height);
        }
        let batches = self.wgpu_ctx.batch_list.prepare_for_render(
            meshes,
            &mut self.wgpu_ctx.gradient_store,
        );
        RenderPlan { upload_transform, resize_target, batches }
    }

    /// A brush of one colour.
    pub fn solid_brush(&mut self, rgba: u32) -> (b: WgpuBrush)
        ensures
            b == WgpuBrush::Solid(rgba),
            *final(self) == *old(self),
    {
        WgpuBrush::Solid(rgba)
    }

    /// Makes `rgba` the colour that the next frame starts from.
    pub fn clear(&mut self, rgba: u32)
        ensures
            final(self).wgpu_ctx.clear_color == rgba,
            final(self).wgpu_ctx.current_size == old(self).wgpu_ctx.current_size,
            final(self).wgpu_ctx.current_transform == old(self).wgpu_ctx.current_transform,
            final(self).wgpu_ctx.batch_list == old(self).wgpu_ctx.batch_list,
            final(self).wgpu_ctx.gradient_store == old(self).wgpu_ctx.gradient_store,
    {
        self.wgpu_ctx.clear_color = rgba;
    }

    /// Ends the drawing of a frame; nothing is pending in this backend.
    pub fn finish(&mut self) -> (r: Result<(), Error>)
        ensures
            r.is_ok(),
            *final(self) == *old(self),
    {
        Ok(())
    }
}

} // verus!
