//! Glyphs and the bitmaps they are drawn into.

use crate::font::FontId;
use crate::geometry::{Bounds, DevicePixels, Pixels, Point, ScaleFactor, Size};
use crate::text_system::IosTextSystem;
use vstd::prelude::*;

verus! {

/// The number of a glyph within its font.
#[derive(Clone, Copy, Debug, PartialEq, Eq, Hash, Structural)]
pub struct GlyphId(pub u32);

/// A glyph to draw, and how.
#[derive(Clone, Copy, Debug, PartialEq, Eq)]
pub struct RenderGlyphParams {
    pub font_id: FontId,
    pub glyph_id: GlyphId,
    pub font_size: Pixels,
    pub scale_factor: ScaleFactor,
    pub is_emoji: bool,
}

/// The way that text is best drawn.
#[derive(Clone, Copy, Debug, PartialEq, Eq, Structural)]
pub enum RecommendedRenderingMode {
    /// One coverage value for each pixel.
    Alpha,
    /// One coverage value for each part of a pixel.
    Subpixel,
}

/// The colours of a bitmap.
#[derive(Clone, Copy, Debug, PartialEq, Eq, Structural)]
pub enum ColorSpace {
    DeviceRgb,
    DeviceGray,
}

/// How a bitmap holds its alpha values.
#[derive(Clone, Copy, Debug, PartialEq, Eq, Structural)]
pub enum AlphaInfo {
    /// After the colours, which are multiplied by it.
    PremultipliedLast,
    /// There is nothing but alpha.
    Only,
}

/// CoreGraphics' number for a bitmap of nothing but alpha.
pub const CG_IMAGE_ALPHA_ONLY: u32 = 7;

/// A bitmap to draw one glyph into.
#[derive(Debug, PartialEq, Eq)]
pub struct GlyphBitmap {
    pub width: usize,
    pub height: usize,
    pub bytes_per_pixel: usize,
    /// The number of bytes in a row.
    pub stride: usize,
    pub color_space: ColorSpace,
    pub alpha_info: AlphaInfo,
    /// Whether the glyph is filled with white and its edges are smoothed.
    pub antialias: bool,
    /// Whether the channels are to be reordered for the renderer afterwards.
    pub swap_to_bgra: bool,
    pub pixels: Vec<u8>,
}

/// Why a glyph was not drawn.
#[derive(Clone, Copy, Debug, PartialEq, Eq, Structural)]
pub enum GlyphError {
    /// The glyph covers no pixel.
    EmptyBounds,
}

impl GlyphError {
    /// The error in words.
    pub fn message(&self) -> (message: &'static str)
        ensures
            message@ == "glyph has empty bounds"@,
    {
        "glyph has empty bounds"
    }
}

/// The glyph in CoreGraphics' numbering, which has 16 bits.
pub fn cg_glyph(glyph_id: GlyphId) -> (glyph: u16)
    ensures
        glyph == glyph_id.0 % 0x1_0000,
{
    (glyph_id.0 % 0x1_0000) as u16
}

/// The 16 bits by which a font is asked for the glyph of a character. Of a
/// character beyond the first plane only the low bits are left.
pub fn character_unit(ch: char) -> (unit: u16)
    ensures
        unit == (ch as u32) % 0x1_0000,
{
    (ch as u32 % 0x1_0000) as u16
}

/// The answer of a font that was asked for the glyph of a character. The glyph
/// zero stands for a missing one.
pub fn glyph_for_char(has_glyph: bool, glyph: u16) -> (found: Option<GlyphId>)
    ensures
        found == if has_glyph && glyph != 0 {
            Some(GlyphId(glyph as u32))
        } else {
            None
        },
{
    if has_glyph && glyph != 0 {
        Some(GlyphId(glyph as u32))
    } else {
        None
    }
}

/// Whether a glyph is drawn in colour. All glyphs are drawn in one colour.
pub fn glyph_is_emoji(glyph: u16) -> (is_emoji: bool)
    ensures
        !is_emoji,
{
    false
}

/// The larger of two numbers.
pub open spec fn larger(a: int, b: int) -> int {
    if a < b {
        b
    } else {
        a
    }
}

/// The rectangle of pixels that a glyph covers: from the left edge of its box,
/// and from the top edge counted downwards. A box whose edges are in the wrong
/// order has no extent.
pub open spec fn raster_bounds_of(left: int, bottom: int, right: int, top: int) -> Bounds<
    DevicePixels,
> {
    Bounds {
        origin: Point { x: DevicePixels(left as i32), y: DevicePixels((-top) as i32) },
        size: Size {
            width: DevicePixels(larger(right - left, 0) as i32),
            height: DevicePixels(larger(top - bottom, 0) as i32),
        },
    }
}

/// The pixels that a glyph covers, from the edges of its box. The edges are
/// counted upwards from the baseline, the result downwards.
pub fn raster_bounds(left: i32, bottom: i32, right: i32, top: i32) -> (bounds: Bounds<DevicePixels>)
    requires
        top > i32::MIN,
        i32::MIN <= right - left <= i32::MAX,
        i32::MIN <= top - bottom <= i32::MAX,
    ensures
        bounds == raster_bounds_of(left as int, bottom as int, right as int, top as int),
{
    let width: i32 = right - left;
    let height: i32 = top - bottom;
    Bounds {
        origin: Point { x: DevicePixels(left), y: DevicePixels(-top) },
        size: Size {
            width: DevicePixels(
                if width < 0 {
                    0
                } else {
                    width
                },
            ),
            height: DevicePixels(
                if height < 0 {
                    0
                } else {
                    height
                },
            ),
        },
    }
}

/// The number of bytes for a pixel: colour takes four, one colour takes one.
pub open spec fn bytes_per_pixel(is_emoji: bool) -> nat {
    if is_emoji {
        4
    } else {
        1
    }
}

/// Whether a glyph covers no pixel.
pub open spec fn is_empty(bounds: Bounds<DevicePixels>) -> bool {
    bounds.size.width.0 == 0 || bounds.size.height.0 == 0
}

/// The number of bytes in the bitmap of a glyph.
pub open spec fn bitmap_len(bounds: Bounds<DevicePixels>, is_emoji: bool) -> int {
    bounds.size.width.0 * bytes_per_pixel(is_emoji) * bounds.size.height.0
}

impl<F> IosTextSystem<F> {
    /// The way that text is best drawn: screens are dense enough to do without
    /// parts of pixels.
    pub fn recommended_rendering_mode(&self) -> (mode: RecommendedRenderingMode)
        ensures
            mode == RecommendedRenderingMode::Alpha,
    {
        RecommendedRenderingMode::Alpha
    }

    /// The blank bitmap to draw a glyph into.
    pub fn rasterize_glyph(
        &self,
        params: &RenderGlyphParams,
        raster_bounds: Bounds<DevicePixels>,
    ) -> (bitmap: Result<GlyphBitmap, GlyphError>)
        requires
            is_empty(raster_bounds) || {
                &&& raster_bounds.size.width.0 > 0
                &&& raster_bounds.size.height.0 > 0
                &&& bitmap_len(raster_bounds, params.is_emoji) <= isize::MAX
                &&& params.font_id.0 < self.fonts().len()
            },
        ensures
            match bitmap {
                Ok(b) => {
                    &&& !is_empty(raster_bounds)
                    &&& b.width == raster_bounds.size.width.0
                    &&& b.height == raster_bounds.size.height.0
                    &&& b.bytes_per_pixel == bytes_per_pixel(params.is_emoji)
                    &&& b.stride == b.width * b.bytes_per_pixel
                    &&& b.color_space == if params.is_emoji {
                        ColorSpace::DeviceRgb
                    } else {
                        ColorSpace::DeviceGray
                    }
                    &&& b.alpha_info == if params.is_emoji {
                        AlphaInfo::PremultipliedLast
                    } else {
                        AlphaInfo::Only
                    }
                    &&& b.antialias == !params.is_emoji
                    &&& b.swap_to_bgra == params.is_emoji
                    &&& b.pixels@ == Seq::new(
                        bitmap_len(raster_bounds, params.is_emoji) as nat,
                        |i: int| 0u8,
                    )
                },
                Err(error) => is_empty(raster_bounds) && error == GlyphError::EmptyBounds,
            },
    {
        if raster_bounds.size.width.0 == 0 || raster_bounds.size.height.0 == 0 {
            return Err(GlyphError::EmptyBounds);
        }
        let width: usize = raster_bounds.size.width.0 as usize;
        let height: usize = raster_bounds.size.height.0 as usize;
        let (bytes_per_pixel, color_space, alpha_info): (usize, ColorSpace, AlphaInfo) =
            if params.is_emoji {
            (4, ColorSpace::DeviceRgb, AlphaInfo::PremultipliedLast)
        } else {
            (1, ColorSpace::DeviceGray, AlphaInfo::Only)
        };
        assert(width * bytes_per_pixel <= width * bytes_per_pixel * height) by (nonlinear_arith)
            requires
                height >= 1,
                width >= 1,
                bytes_per_pixel >= 1,
        ;
        let stride: usize = width * bytes_per_pixel;
        let pixels: Vec<u8> = vec![0u8; stride * height];
        assert(pixels@ =~= Seq::new(
            bitmap_len(raster_bounds, params.is_emoji) as nat,
            |i: int| 0u8,
        ));
        Ok(
            GlyphBitmap {
                width,
                height,
                bytes_per_pixel,
                stride,
                color_space,
                alpha_info,
                antialias: !params.is_emoji,
                swap_to_bgra: params.is_emoji,
                pixels,
            },
        )
    }
}

/// Of a box with its edges in order, the pixels reach exactly from edge to edge.
pub proof fn law_raster_bounds_cover_the_box(left: i32, bottom: i32, right: i32, top: i32)
    requires
        left <= right <= left + i32::MAX,
        bottom <= top <= bottom + i32::MAX,
        top > i32::MIN,
    ensures
        ({
            let bounds = raster_bounds_of(left as int, bottom as int, right as int, top as int);
            &&& bounds.origin.x.0 == left
            &&& bounds.origin.x.0 + bounds.size.width.0 == right
            &&& bounds.origin.y.0 == -top
            &&& bounds.origin.y.0 + bounds.size.height.0 == -bottom
        }),
{
}

/// The pixels of a glyph start at the left and top edges of its box, and a box
/// whose edges are in the wrong order has no extent in that direction.
pub proof fn law_reversed_boxes_have_no_extent(left: i32, bottom: i32, right: i32, top: i32)
    requires
        top > i32::MIN,
        i32::MIN <= right - left <= i32::MAX,
        i32::MIN <= top - bottom <= i32::MAX,
    ensures
        ({
            let bounds = raster_bounds_of(left as int, bottom as int, right as int, top as int);
            &&& bounds.origin.x.0 == left
            &&& bounds.origin.y.0 == -top
            &&& right <= left ==> bounds.size.width.0 == 0
            &&& top <= bottom ==> bounds.size.height.0 == 0
            &&& right >= left ==> bounds.size.width.0 == right - left
            &&& top >= bottom ==> bounds.size.height.0 == top - bottom
        }),
{
}

/// A bitmap has one byte for every pixel, or four where it is in colour.
pub proof fn law_bitmaps_have_room_for_every_pixel(bounds: Bounds<DevicePixels>)
    ensures
        bitmap_len(bounds, false) == bounds.size.width.0 * bounds.size.height.0,
        bitmap_len(bounds, true) == 4 * (bounds.size.width.0 * bounds.size.height.0),
        bytes_per_pixel(false) == 1,
        bytes_per_pixel(true) == 4,
{
    let (w, h) = (bounds.size.width.0 as int, bounds.size.height.0 as int);
    assert(w * 1 * h == w * h) by (nonlinear_arith);
    assert(w * 4 * h == 4 * (w * h)) by (nonlinear_arith);
}

/// A glyph is empty exactly where its rectangle has no pixels.
pub proof fn law_empty_glyphs_have_no_pixels(bounds: Bounds<DevicePixels>)
    ensures
        is_empty(bounds) <==> bounds.size.width.0 * bounds.size.height.0 == 0,
{
    let (w, h) = (bounds.size.width.0 as int, bounds.size.height.0 as int);
    assert(w * h == 0 <==> w == 0 || h == 0) by (nonlinear_arith);
}

} // verus!
