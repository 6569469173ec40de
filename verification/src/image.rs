use vstd::prelude::*;

use crate::context::RaqoteRenderContext;
use crate::error::Error;

verus! {

/// The pixel layout of a byte buffer that an image is made from.
#[derive(Clone, Copy, Debug, PartialEq, Eq, Structural)]
pub enum ImageFormat {
    /// 3 bytes per pixel, in RGB order.
    Rgb,
    /// 4 bytes per pixel, in RGBA order, with separate alpha.
    RgbaSeparate,
    /// 4 bytes per pixel, in RGBA order, with premultiplied alpha.
    RgbaPremul,
    /// Any layout that this library has no packing for.
    Other,
}

impl ImageFormat {
    /// Number of bytes that one pixel takes, 0 for a layout without packing.
    pub open spec fn spec_bytes_per_pixel(self) -> nat {
        match self {
            ImageFormat::Rgb => 3,
            ImageFormat::RgbaSeparate => 4,
            ImageFormat::RgbaPremul => 4,
            ImageFormat::Other => 0,
        }
    }

    /// Whether an image can be made from this layout.
    pub open spec fn is_packable(self) -> bool {
        self != ImageFormat::Other
    }
}

/// A pixel with the alpha channel in the top byte, followed by red, green
/// and blue.
pub open spec fn argb(a: u8, r: u8, g: u8, b: u8) -> u32 {
    (a * 0x100_0000 + r * 0x1_0000 + g * 0x100 + b) as u32
}

/// A colour channel `x` scaled by the alpha `a`, as a fraction of 255, by
/// the usual shift approximation of the division.
pub open spec fn premul_spec(x: u8, a: u8) -> u8 {
    ((x * a + (x * a) / 256 + 128) / 256) as u8
}

/// The pixel that `format` packs from the bytes of `buf` starting at `at`.
pub open spec fn pixel_at(buf: Seq<u8>, format: ImageFormat, at: int) -> u32 {
    match format {
        ImageFormat::Rgb => argb(0xff, buf[at], buf[at + 1], buf[at + 2]),
        ImageFormat::RgbaPremul => argb(buf[at + 3], buf[at], buf[at + 1], buf[at + 2]),
        ImageFormat::RgbaSeparate => argb(
            buf[at + 3],
            premul_spec(buf[at], buf[at + 3]),
            premul_spec(buf[at + 1], buf[at + 3]),
            premul_spec(buf[at + 2], buf[at + 3]),
        ),
        ImageFormat::Other => 0,
    }
}

/// The pixels that `format` packs from all of `buf`, in order.
pub open spec fn packed_pixels(buf: Seq<u8>, format: ImageFormat) -> Seq<u32>
    recommends
        format.is_packable(),
{
    let step = format.spec_bytes_per_pixel();
    Seq::new(buf.len() / step, |i: int| pixel_at(buf, format, i * step))
}

/// A bitmap of premultiplied ARGB pixels together with the size it was
/// declared with.
pub struct InternalImage {
    width: usize,
    height: usize,
    data: Vec<u32>,
}

impl InternalImage {
    pub closed spec fn spec_width(&self) -> usize {
        self.width
    }

    pub closed spec fn spec_height(&self) -> usize {
        self.height
    }

    /// The pixels, row after row.
    pub closed spec fn pixels(&self) -> Seq<u32> {
        self.data@
    }

    /// The declared width in pixels.
    #[verifier::when_used_as_spec(spec_width)]
    pub fn width(&self) -> (w: usize)
        ensures
            w == self.spec_width(),
    {
        self.width
    }

    /// The declared height in pixels.
    #[verifier::when_used_as_spec(spec_height)]
    pub fn height(&self) -> (h: usize)
        ensures
            h == self.spec_height(),
    {
        self.height
    }

    /// The pixels, row after row.
    pub fn data(&self) -> (d: &[u32])
        ensures
            d@ == self.pixels(),
    {
        self.data.as_slice()
    }
}

/// Whether no colour channel of an ARGB pixel exceeds its alpha, as holds of
/// a colour that was multiplied by its alpha.
pub open spec fn is_premultiplied(pixel: u32) -> bool {
    let a = pixel / 0x100_0000;
    &&& (pixel / 0x1_0000) % 0x100 <= a
    &&& (pixel / 0x100) % 0x100 <= a
    &&& pixel % 0x100 <= a
}

/// A pixel holds the four channels that it was put together from, so it is
/// premultiplied exactly when none of the three colours exceeds the alpha.
pub proof fn lemma_argb_channels(a: u8, r: u8, g: u8, b: u8)
    ensures
        argb(a, r, g, b) / 0x100_0000 == a,
        (argb(a, r, g, b) / 0x1_0000) % 0x100 == r,
        (argb(a, r, g, b) / 0x100) % 0x100 == g,
        argb(a, r, g, b) % 0x100 == b,
        is_premultiplied(argb(a, r, g, b)) <==> r <= a && g <= a && b <= a,
{
}

/// The pixels packed from opaque colours, and from colours with separate
/// alpha, are premultiplied; the former are opaque too.
pub proof fn lemma_packed_premultiplied(buf: Seq<u8>, format: ImageFormat, i: int)
    requires
        format == ImageFormat::Rgb || format == ImageFormat::RgbaSeparate,
        0 <= i < packed_pixels(buf, format).len(),
    ensures
        is_premultiplied(packed_pixels(buf, format)[i]),
        format == ImageFormat::Rgb ==> packed_pixels(buf, format)[i] / 0x100_0000 == 0xff,
{
    let at = i * format.spec_bytes_per_pixel();
    if format == ImageFormat::RgbaSeparate {
        let a = buf[at + 3];
        lemma_premul_bounded(buf[at], a);
        lemma_premul_bounded(buf[at + 1], a);
        lemma_premul_bounded(buf[at + 2], a);
        lemma_argb_channels(
            a,
            premul_spec(buf[at], a),
            premul_spec(buf[at + 1], a),
            premul_spec(buf[at + 2], a),
        );
    } else {
        lemma_argb_channels(0xff, buf[at], buf[at + 1], buf[at + 2]);
    }
}

/// A premultiplied channel never exceeds the alpha it was scaled by, nor
/// the channel it was made from.
pub proof fn lemma_premul_bounded(x: u8, a: u8)
    ensures
        premul_spec(x, a) <= a,
        premul_spec(x, a) <= x,
{
    assert(((x as u32 * a as u32 + (x as u32 * a as u32) / 256 + 128) / 256) as u8 <= a
        && ((x as u32 * a as u32 + (x as u32 * a as u32) / 256 + 128) / 256) as u8 <= x) by (bit_vector);
}

/// Full alpha leaves a channel as it is, and a full channel takes the value
/// of the alpha; no alpha, or no channel, gives zero.
pub proof fn lemma_premul_ends(x: u8)
    ensures
        premul_spec(x, 255) == x,
        premul_spec(255, x) == x,
        premul_spec(x, 0) == 0,
        premul_spec(0, x) == 0,
{
    assert(((x as u32 * 255u32 + (x as u32 * 255u32) / 256 + 128) / 256) as u8 == x) by (bit_vector);
}

/// A premultiplied channel is the quotient of `x * a` by 255 to within
/// little more than a half.
pub proof fn lemma_premul_close(x: u8, a: u8)
    ensures
        -128 <= 255 * premul_spec(x, a) - x * a <= 127,
{
    let p = ((x as u32 * a as u32 + (x as u32 * a as u32) / 256 + 128) / 256) as u8;
    assert(p == premul_spec(x, a));
    assert(255 * (p as u32) + 128 >= x as u32 * a as u32 && 255 * (p as u32) <= x as u32 * a as u32
        + 127) by (bit_vector)
        requires
            p == ((x as u32 * a as u32 + (x as u32 * a as u32) / 256 + 128) / 256) as u8,
    ;
}

proof fn lemma_argb_bits(a: u8, r: u8, g: u8, b: u8)
    ensures
        ((a as u32) << 24) | ((r as u32) << 16) | ((g as u32) << 8) | (b as u32) == argb(a, r, g, b),
{
    assert(((a as u32) << 24) | ((r as u32) << 16) | ((g as u32) << 8) | (b as u32) == (a
        * 0x100_0000 + r * 0x1_0000 + g * 0x100 + b) as u32) by (bit_vector);
}

fn pack_argb(a: u8, r: u8, g: u8, b: u8) -> (p: u32)
    ensures
        p == argb(a, r, g, b),
{
    proof {
        lemma_argb_bits(a, r, g, b);
    }
    ((a as u32) << 24) | ((r as u32) << 16) | ((g as u32) << 8) | (b as u32)
}

/// Scales the colour channel `x` by the alpha `a`.
pub fn premul(x: u8, a: u8) -> (p: u8)
    ensures
        p == premul_spec(x, a),
{
    assert(x * a <= 255 * 255) by (nonlinear_arith)
        requires
            x <= 255,
            a <= 255,
    ;
    let y: u16 = (x as u16) * (a as u16);
    assert(y >> 8 == y / 256) by (bit_vector);
    let s: u16 = y + (y >> 8) + 0x80;
    assert(s >> 8 == s / 256) by (bit_vector);
    let p: u16 = s >> 8;
    p as u8
}

impl<'a> RaqoteRenderContext<'a> {
    /// Packs the bytes of `buf`, laid out as `format` says, into an image
    /// of premultiplied ARGB pixels with the given declared size.
    ///
    /// Fails with [`Error::NotSupported`] exactly when the layout has no
    /// packing. The declared size is stored as given; it is not compared
    /// with the number of pixels in `buf`.
    pub fn make_image(&mut self, width: usize, height: usize, buf: &[u8], format: ImageFormat) -> (r:
        Result<InternalImage, Error>)
        requires
            format.is_packable() ==> buf@.len() % format.spec_bytes_per_pixel() == 0,
        ensures
            !format.is_packable() <==> r == Err::<InternalImage, Error>(Error::NotSupported),
            format.is_packable() <==> r.is_ok(),
            r.is_ok() ==> {
                &&& r.unwrap().spec_width() == width
                &&& r.unwrap().spec_height() == height
                &&& r.unwrap().pixels() == packed_pixels(buf@, format)
            },
            *final(self) == *old(self),
    {
        let step: usize = match format {
            ImageFormat::Rgb => 3,
            ImageFormat::RgbaSeparate => 4,
            ImageFormat::RgbaPremul => 4,
            ImageFormat::Other => { return Err(Error::NotSupported); },
        };
        let mut image: Vec<u32> = Vec::new();
        let n: usize = buf.len() / step;
        let mut i: usize = 0;
        while i < n
            invariant
                format.is_packable(),
                step == format.spec_bytes_per_pixel(),
                n == buf@.len() / (step as nat),
                buf@.len() % (step as nat) == 0,
                buf@.len() <= usize::MAX,
                i <= n,
                image@.len() == i,
                forall|k: int| 0 <= k < i ==> image@[k] == pixel_at(buf@, format, k * step),
            decreases n - i,
        {
            assert(i * step + step <= buf@.len()) by (nonlinear_arith)
                requires
                    i < n,
                    step > 0,
                    n == buf@.len() / (step as nat),
                    buf@.len() % (step as nat) == 0,
            ;
            let at: usize = i * step;
            let pixel: u32 = match format {
                ImageFormat::Rgb => pack_argb(0xff, buf[at], buf[at + 1], buf[at + 2]),
                ImageFormat::RgbaPremul => pack_argb(buf[at + 3], buf[at], buf[at + 1], buf[at + 2]),
                _ => {
                    let a: u8 = buf[at + 3];
                    pack_argb(a, premul(buf[at], a), premul(buf[at + 1], a), premul(buf[at + 2], a))
                },
            };
            image.push(pixel);
            i += 1;
        }
        assert(image@ =~= packed_pixels(buf@, format));
        Ok(InternalImage { width, height, data: image })
    }
}

} // verus!
