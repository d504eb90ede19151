use gpui_ios::font::FontId;
use gpui_ios::geometry::{Bounds, DevicePixels, Pixels, Point, ScaleFactor, Size};
use gpui_ios::glyphs::{
    cg_glyph, character_unit, glyph_for_char, glyph_is_emoji, raster_bounds, AlphaInfo,
    ColorSpace, GlyphBitmap, GlyphError, GlyphId, RecommendedRenderingMode, RenderGlyphParams,
    CG_IMAGE_ALPHA_ONLY,
};
use gpui_ios::line_layout::{CtLine, CtRun, FontRun, FontSpan, LineLayout, ShapedGlyph, ShapedRun};
use gpui_ios::text_system::{CtFont, FontFile, IosTextSystem};

fn px(value: f32) -> Pixels {
    Pixels { bits: value.to_bits() }
}

fn point(x: f32, y: f32) -> Point<Pixels> {
    Point { x: px(x), y: px(y) }
}

fn device(x: i32, y: i32, width: i32, height: i32) -> Bounds<DevicePixels> {
    Bounds {
        origin: Point { x: DevicePixels(x), y: DevicePixels(y) },
        size: Size { width: DevicePixels(width), height: DevicePixels(height) },
    }
}

/// A system with two fonts.
fn system() -> IosTextSystem<()> {
    let mut system = IosTextSystem::new();
    let mut files = Vec::new();
    for name in ["A", "B"] {
        let font = CtFont {
            ct_font: (),
            postscript_name: Some(name.to_owned()),
            family_name: name.to_owned(),
            symbolic_traits: 0,
        };
        files.push(FontFile { data: Vec::new(), font: Some(font) });
    }
    system.add_fonts(files);
    system
}

fn run(len: usize, font: usize) -> FontRun {
    FontRun { len, font_id: FontId(font) }
}

fn span(location: isize, length: isize, font: usize, start: usize, end: usize) -> FontSpan {
    FontSpan { location, length, font_id: FontId(font), byte_start: start, byte_end: end }
}

fn line(runs: Vec<CtRun>) -> CtLine {
    CtLine { width: px(30.0), ascent: px(9.0), descent: px(3.0), runs }
}

fn params(is_emoji: bool) -> RenderGlyphParams {
    RenderGlyphParams {
        font_id: FontId(1),
        glyph_id: GlyphId(5),
        font_size: px(12.0),
        scale_factor: ScaleFactor { bits: 2.0f32.to_bits() },
        is_emoji,
    }
}

#[test]
fn spans_follow_one_another() {
    let text = "a\u{00E9}\u{20AC}\u{1F511}z";
    assert_eq!(
        system().font_spans(text, &[run(1, 0), run(2, 1), run(2, 0)]),
        [span(0, 1, 0, 0, 1), span(1, 2, 1, 1, 6), span(3, 2, 0, 6, 11)]
    );
}

#[test]
fn spans_never_cut_a_character() {
    let text = "\u{1F511}a\u{00E9}";
    for first in 0..5 {
        for span in system().font_spans(text, &[run(first, 0), run(9, 1)]) {
            assert!(text.is_char_boundary(span.byte_start));
            assert!(text.is_char_boundary(span.byte_end));
        }
    }
}

#[test]
fn empty_runs_and_unknown_fonts_set_nothing() {
    assert_eq!(
        system().font_spans("abcdef", &[run(0, 0), run(2, 7), run(1, 1), run(0, 1)]),
        [span(2, 1, 1, 2, 3)]
    );
}

#[test]
fn long_runs_take_what_is_left() {
    assert_eq!(
        system().font_spans("abc", &[run(2, 0), run(10, 1), run(4, 0)]),
        [span(0, 2, 0, 0, 2), span(2, 10, 1, 2, 3), span(12, 4, 0, 3, 3)]
    );
    assert_eq!(system().font_spans("", &[run(1, 0)]), [span(0, 1, 0, 0, 0)]);
}

#[test]
fn metrics_come_from_the_first_run() {
    assert_eq!(system().metrics_font(&[run(1, 1), run(1, 0)]), Some(FontId(1)));
    assert_eq!(system().metrics_font(&[run(1, 7), run(1, 0)]), None);
    assert_eq!(system().metrics_font(&[]), None);
}

#[test]
fn line_without_text_or_runs_is_blank() {
    let blank = LineLayout {
        font_size: px(12.0),
        width: px(0.0),
        ascent: px(0.0),
        descent: px(0.0),
        runs: Vec::new(),
        len: 0,
    };
    let shaped = line(vec![CtRun {
        glyph_count: 1,
        glyphs: vec![4],
        positions: Vec::new(),
        string_indices: Vec::new(),
    }]);
    assert_eq!(system().layout_line("", px(12.0), &[run(1, 0)], &shaped), blank);
    assert_eq!(system().layout_line("abc", px(12.0), &[], &shaped), blank);
}

#[test]
fn layout_takes_over_the_glyphs() {
    let shaped = line(vec![
        CtRun {
            glyph_count: 2,
            glyphs: vec![4, 65535],
            positions: vec![point(0.0, 0.0), point(7.5, 1.0)],
            string_indices: vec![0, 2],
        },
        CtRun {
            glyph_count: 0,
            glyphs: Vec::new(),
            positions: Vec::new(),
            string_indices: Vec::new(),
        },
        CtRun {
            glyph_count: 1,
            glyphs: vec![9],
            positions: vec![point(20.0, 0.0)],
            string_indices: vec![3],
        },
    ]);
    let glyph = |id: u32, x: f32, y: f32, index: usize| ShapedGlyph {
        id: GlyphId(id),
        position: point(x, y),
        index,
        is_emoji: false,
    };
    assert_eq!(
        system().layout_line("a\u{00E9}b", px(12.0), &[run(2, 1), run(1, 0)], &shaped),
        LineLayout {
            font_size: px(12.0),
            width: px(30.0),
            ascent: px(9.0),
            descent: px(3.0),
            runs: vec![
                ShapedRun {
                    font_id: FontId(1),
                    glyphs: vec![glyph(4, 0.0, 0.0, 0), glyph(65535, 7.5, 1.0, 2)],
                },
                ShapedRun { font_id: FontId(1), glyphs: vec![glyph(9, 20.0, 0.0, 3)] },
            ],
            len: 4,
        }
    );
}

#[test]
fn missing_positions_and_indices_have_defaults() {
    let shaped = line(vec![CtRun {
        glyph_count: 3,
        glyphs: vec![1, 2, 3],
        positions: vec![point(5.0, 0.0)],
        string_indices: vec![4, -1],
    }]);
    let layout = system().layout_line("abc", px(12.0), &[run(3, 0)], &shaped);
    let glyphs = &layout.runs[0].glyphs;
    assert_eq!(glyphs[0].position, point(5.0, 0.0));
    assert_eq!(glyphs[1].position, point(0.0, 0.0));
    assert_eq!(glyphs[0].index, 4);
    assert_eq!(glyphs[1].index, usize::MAX);
    assert_eq!(glyphs[2].index, 2);
}

#[test]
fn glyph_numbers_have_sixteen_bits() {
    assert_eq!(cg_glyph(GlyphId(0)), 0);
    assert_eq!(cg_glyph(GlyphId(0xffff)), 0xffff);
    assert_eq!(cg_glyph(GlyphId(0x1_0005)), 5);
    assert_eq!(character_unit('a'), 97);
    assert_eq!(character_unit('\u{FFFD}'), 0xfffd);
    assert_eq!(character_unit('\u{1F511}'), 0xf511);
}

#[test]
fn glyph_zero_is_missing() {
    assert_eq!(glyph_for_char(true, 12), Some(GlyphId(12)));
    assert_eq!(glyph_for_char(true, 0), None);
    assert_eq!(glyph_for_char(false, 12), None);
    assert!(!glyph_is_emoji(12));
}

#[test]
fn raster_bounds_reach_from_edge_to_edge() {
    assert_eq!(raster_bounds(-2, -3, 10, 8), device(-2, -8, 12, 11));
    assert_eq!(raster_bounds(0, 0, 0, 0), device(0, 0, 0, 0));
    assert_eq!(raster_bounds(5, 5, 3, 4), device(5, -4, 0, 0));
}

#[test]
fn emoji_get_four_bytes_for_a_pixel() {
    assert_eq!(
        system().rasterize_glyph(&params(true), device(1, -2, 3, 2)),
        Ok(GlyphBitmap {
            width: 3,
            height: 2,
            bytes_per_pixel: 4,
            stride: 12,
            color_space: ColorSpace::DeviceRgb,
            alpha_info: AlphaInfo::PremultipliedLast,
            antialias: false,
            swap_to_bgra: true,
            pixels: vec![0; 24],
        })
    );
}

#[test]
fn other_glyphs_get_one_byte_for_a_pixel() {
    assert_eq!(
        system().rasterize_glyph(&params(false), device(1, -2, 3, 2)),
        Ok(GlyphBitmap {
            width: 3,
            height: 2,
            bytes_per_pixel: 1,
            stride: 3,
            color_space: ColorSpace::DeviceGray,
            alpha_info: AlphaInfo::Only,
            antialias: true,
            swap_to_bgra: false,
            pixels: vec![0; 6],
        })
    );
    assert_eq!(CG_IMAGE_ALPHA_ONLY, 7);
}

#[test]
fn empty_glyphs_are_not_drawn() {
    for bounds in [device(0, 0, 0, 5), device(0, 0, 5, 0), device(0, 0, 0, 0)] {
        assert_eq!(
            system().rasterize_glyph(&params(false), bounds),
            Err(GlyphError::EmptyBounds)
        );
    }
    assert_eq!(GlyphError::EmptyBounds.message(), "glyph has empty bounds");
}

#[test]
fn text_is_drawn_with_whole_pixels() {
    assert_eq!(system().recommended_rendering_mode(), RecommendedRenderingMode::Alpha);
}
