//! How a stroke is drawn where its style leaves a choice open.

use vstd::prelude::*;

verus! {

/// Options for angled joins in strokes.
#[derive(Clone, Copy, Debug, PartialEq, Eq, Structural)]
pub enum LineJoin {
    Miter,
    Round,
    Bevel,
}

/// Options for the cap of stroked lines.
#[derive(Clone, Copy, Debug, PartialEq, Eq, Structural)]
pub enum LineCap {
    Butt,
    Round,
    Square,
}

/// The miter limit of a style that names none: the double 10.0, as its bit
/// pattern.
pub const DEFAULT_MITER_LIMIT: u64 = 0x4024_0000_0000_0000;

/// The join, the cap and the miter limit that a stroke is drawn with; the
/// limit is the bit pattern of a double.
#[derive(Clone, Copy, Debug, PartialEq, Eq, Structural)]
pub struct StrokeOptions {
    pub line_join: LineJoin,
    pub line_cap: LineCap,
    pub miter_limit: u64,
}

/// The options of a stroke whose style names the given join, cap and miter
/// limit, or leaves them open: an open join is a miter, an open cap is a
/// butt, and an open limit is [`DEFAULT_MITER_LIMIT`].
pub fn convert_stroke_style(
    line_join: Option<LineJoin>,
    line_cap: Option<LineCap>,
    miter_limit: Option<u64>,
) -> (o: StrokeOptions)
    ensures
        o.line_join == (match line_join {
            Some(j) => j,
            None => LineJoin::Miter,
        }),
        o.line_cap == (match line_cap {
            Some(c) => c,
            None => LineCap::Butt,
        }),
        o.miter_limit == (match miter_limit {
            Some(m) => m,
            None => DEFAULT_MITER_LIMIT,
        }),
{
    let line_join = match line_join {
        Some(j) => j,
        None => LineJoin::Miter,
    };
    let line_cap = match line_cap {
        Some(c) => c,
        None => LineCap::Butt,
    };
    let miter_limit = match miter_limit {
        Some(m) => m,
        None => DEFAULT_MITER_LIMIT,
    };
    StrokeOptions { line_join, line_cap, miter_limit }
}

} // verus!
