use piet_backends::stroke::{
    convert_stroke_style, LineCap, LineJoin, StrokeOptions, DEFAULT_MITER_LIMIT,
};
use piet_backends::{split_rgba, Brush};

#[test]
fn open_choices_take_the_defaults() {
    let options = convert_stroke_style(None, None, None);
    assert_eq!(
        options,
        StrokeOptions {
            line_join: LineJoin::Miter,
            line_cap: LineCap::Butt,
            miter_limit: DEFAULT_MITER_LIMIT,
        }
    );
    assert_eq!(f64::from_bits(options.miter_limit), 10.0);
}

#[test]
fn named_choices_are_kept() {
    let limit = 2.5f64.to_bits();
    for join in [LineJoin::Miter, LineJoin::Round, LineJoin::Bevel] {
        for cap in [LineCap::Butt, LineCap::Round, LineCap::Square] {
            assert_eq!(
                convert_stroke_style(Some(join), Some(cap), Some(limit)),
                StrokeOptions { line_join: join, line_cap: cap, miter_limit: limit }
            );
        }
    }
    assert_eq!(
        convert_stroke_style(Some(LineJoin::Round), None, None),
        StrokeOptions {
            line_join: LineJoin::Round,
            line_cap: LineCap::Butt,
            miter_limit: DEFAULT_MITER_LIMIT,
        }
    );
    assert_eq!(
        convert_stroke_style(None, Some(LineCap::Square), Some(0)),
        StrokeOptions { line_join: LineJoin::Miter, line_cap: LineCap::Square, miter_limit: 0 }
    );
}

#[test]
fn brush_gives_its_channels() {
    assert_eq!(Brush::Solid(0x0a0b_0c0d).channels(), (0x0a, 0x0b, 0x0c, 0x0d));
    assert_eq!(Brush::Solid(0xff00_00ff).channels(), (255, 0, 0, 255));
    assert_eq!(Brush::Solid(0).channels(), (0, 0, 0, 0));
}

#[test]
fn channels_put_together_give_the_value_back() {
    for rgba in [0u32, 1, 0x80, 0xff00, 0x1234_5678, 0xdead_beef, 0xffff_ffff] {
        let (r, g, b, a) = split_rgba(rgba);
        let joined = ((r as u32) << 24) | ((g as u32) << 16) | ((b as u32) << 8) | (a as u32);
        assert_eq!(joined, rgba);
    }
}

#[test]
fn alpha_on_top_turns_the_value_by_a_byte() {
    for rgba in [0u32, 1, 0x80, 0xff00, 0x1234_5678, 0xdead_beef, 0xffff_ffff] {
        let c = piet_backends::piet_color_to_raqote(rgba);
        let argb = ((c.a() as u32) << 24) | ((c.r() as u32) << 16) | ((c.g() as u32) << 8) | (c.b() as u32);
        assert_eq!(argb, rgba.rotate_right(8));
    }
}
