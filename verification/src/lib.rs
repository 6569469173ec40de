//! Verified building blocks for 2D drawing backends: colour channel
//! handling, bitmap image packing, the save/restore state stack of a
//! software render context, and the batching decisions of a GPU renderer.
//!
//! Everything here works on integers and on values that are carried through
//! unopened; coordinates and other floating-point work stay with the caller.

pub mod affine;
pub mod batch;
pub mod bitmap;
pub mod color;
pub mod context;
pub mod coregraphics;
pub mod error;
pub mod float_bits;
pub mod gradient;
pub mod image;
pub mod render;
pub mod stroke;
pub mod target;

pub use batch::{
    Batch, BatchKind, BatchList, LinearGradientBatch, LinearGradientPrimitive, MeshSize,
    PreparedBatch, SolidBatch, SolidPrimitive, WgpuBrush,
};
pub use bitmap::{BitmapTarget, Device};
pub use color::{piet_color_to_raqote, split_rgba};
pub use coregraphics::{
    Brush, CoreGraphicsFont, CoreGraphicsFontBuilder, CoreGraphicsLayout, CoreGraphicsText,
    CoreGraphicsTextLayoutBuilder,
};
pub use context::{RaqoteRenderContext, RaqoteText, StateStack};
pub use error::Error;
pub use gradient::{GradientHandle, GradientStop, GradientStore, LinearGradient, TextureSlot};
pub use image::{premul, ImageFormat, InternalImage};
pub use render::{
    WgpuCtx, WgpuFont, WgpuFontBuilder, WgpuRenderContext, WgpuText, WgpuTextLayout,
    WgpuTextLayoutBuilder,
};
