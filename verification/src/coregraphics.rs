//! What the CoreGraphics backend keeps of a drawing: its brush, and the
//! types that stand for its text support.

use vstd::prelude::*;

use crate::color::{alpha, blue, green, red, split_rgba};

verus! {

/// The paint of a fill or a stroke.
#[derive(Clone, Copy, Debug, PartialEq, Eq, Structural)]
pub enum Brush {
    /// One colour, as RGBA.
    Solid(u32),
}

impl Brush {
    /// The red, green, blue and alpha channels that this brush paints with.
    pub fn channels(&self) -> (c: (u8, u8, u8, u8))
        ensures
            c.0 == red(self->Solid_0),
            c.1 == green(self->Solid_0),
            c.2 == blue(self->Solid_0),
            c.3 == alpha(self->Solid_0),
    {
        match *self {
            Brush::Solid(rgba) => split_rgba(rgba),
        }
    }
}

/// A font of the CoreGraphics backend, which has no text support yet.
pub struct CoreGraphicsFont;

/// Builder of a [`CoreGraphicsFont`].
pub struct CoreGraphicsFontBuilder;

/// A laid-out text of the CoreGraphics backend.
pub struct CoreGraphicsLayout;

/// Builder of a [`CoreGraphicsLayout`].
pub struct CoreGraphicsTextLayoutBuilder {}

/// The text factory of the CoreGraphics backend.
pub struct CoreGraphicsText;

} // verus!
