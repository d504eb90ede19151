//! Lines of text: which font each part gets, and the glyphs it comes to.

use crate::font::FontId;
use crate::geometry::{Pixels, Point};
use crate::glyphs::{glyph_is_emoji, GlyphId};
use crate::text_system::IosTextSystem;
use vstd::prelude::*;
use vstd::utf8::*;

verus! {

/// A number of characters to set in one font.
#[derive(Clone, Copy, Debug, PartialEq, Eq)]
pub struct FontRun {
    pub len: usize,
    pub font_id: FontId,
}

/// A part of a line to set in one font: the range to hand to CoreText, and the
/// bytes of the text that belong to it.
#[derive(Clone, Copy, Debug, PartialEq, Eq)]
pub struct FontSpan {
    pub location: isize,
    pub length: isize,
    pub font_id: FontId,
    pub byte_start: usize,
    pub byte_end: usize,
}

/// A run of glyphs as CoreText reports it.
#[derive(Clone, Debug, PartialEq, Eq)]
pub struct CtRun {
    pub glyph_count: usize,
    pub glyphs: Vec<u16>,
    pub positions: Vec<Point<Pixels>>,
    pub string_indices: Vec<isize>,
}

/// A line as CoreText shaped it. `ascent` and `descent` are those of the font
/// that [`IosTextSystem::metrics_font`] names.
#[derive(Clone, Debug, PartialEq, Eq)]
pub struct CtLine {
    pub width: Pixels,
    pub ascent: Pixels,
    pub descent: Pixels,
    pub runs: Vec<CtRun>,
}

/// A glyph in its place on a line.
#[derive(Clone, Copy, Debug, PartialEq, Eq)]
pub struct ShapedGlyph {
    pub id: GlyphId,
    pub position: Point<Pixels>,
    /// Where in the text the glyph stems from.
    pub index: usize,
    pub is_emoji: bool,
}

/// Glyphs of one font.
#[derive(Clone, Debug, PartialEq, Eq)]
pub struct ShapedRun {
    pub font_id: FontId,
    pub glyphs: Vec<ShapedGlyph>,
}

/// A line that is ready to be drawn.
#[derive(Clone, Debug, PartialEq, Eq)]
pub struct LineLayout {
    pub font_size: Pixels,
    pub width: Pixels,
    pub ascent: Pixels,
    pub descent: Pixels,
    pub runs: Vec<ShapedRun>,
    /// The number of bytes in the text.
    pub len: usize,
}

/// The contents of a [`ShapedRun`].
pub struct ShapedRunView {
    pub font_id: FontId,
    pub glyphs: Seq<ShapedGlyph>,
}

/// The contents of a [`LineLayout`].
pub struct LineLayoutView {
    pub font_size: Pixels,
    pub width: Pixels,
    pub ascent: Pixels,
    pub descent: Pixels,
    pub runs: Seq<ShapedRunView>,
    pub len: nat,
}

impl View for ShapedRun {
    type V = ShapedRunView;

    open spec fn view(&self) -> ShapedRunView {
        ShapedRunView { font_id: self.font_id, glyphs: self.glyphs@ }
    }
}

impl View for LineLayout {
    type V = LineLayoutView;

    open spec fn view(&self) -> LineLayoutView {
        LineLayoutView {
            font_size: self.font_size,
            width: self.width,
            ascent: self.ascent,
            descent: self.descent,
            runs: self.runs@.map_values(|run: ShapedRun| run@),
            len: self.len as nat,
        }
    }
}

/// The number of characters in the first `n` runs.
pub open spec fn chars_before(runs: Seq<FontRun>, n: int) -> nat
    decreases n,
{
    if n <= 0 {
        0
    } else {
        chars_before(runs, n - 1) + runs[n - 1].len as nat
    }
}

/// The number of bytes in the first `n` characters of a text, or in the whole
/// text where that is shorter.
pub open spec fn byte_offset(text: Seq<char>, n: nat) -> nat {
    encode_utf8(
        text.take(
            if n < text.len() {
                n as int
            } else {
                text.len() as int
            },
        ),
    ).len()
}

/// Whether a run sets any characters in a font that is loaded.
pub open spec fn sets_font(run: FontRun, font_count: nat) -> bool {
    run.len != 0 && run.font_id.0 < font_count
}

/// The part of the text that the run at position `i` sets.
pub open spec fn span_of(text: Seq<char>, runs: Seq<FontRun>, i: int) -> FontSpan {
    FontSpan {
        location: chars_before(runs, i) as isize,
        length: runs[i].len as isize,
        font_id: runs[i].font_id,
        byte_start: byte_offset(text, chars_before(runs, i)) as usize,
        byte_end: byte_offset(text, chars_before(runs, i + 1)) as usize,
    }
}

/// The parts that the first `n` runs set. Runs of no characters, and runs of
/// fonts that are not loaded, set none.
pub open spec fn spans_of(
    text: Seq<char>,
    runs: Seq<FontRun>,
    n: int,
    font_count: nat,
) -> Seq<FontSpan>
    decreases n,
{
    if n <= 0 {
        Seq::empty()
    } else {
        let before = spans_of(text, runs, n - 1, font_count);
        if sets_font(runs[n - 1], font_count) {
            before.push(span_of(text, runs, n - 1))
        } else {
            before
        }
    }
}

/// The encoding of two texts one after the other.
proof fn lemma_encode_concat(a: Seq<char>, b: Seq<char>)
    ensures
        encode_utf8(a + b) == encode_utf8(a) + encode_utf8(b),
    decreases a.len(),
{
    if a.len() == 0 {
        assert(a + b =~= b);
        assert(encode_utf8(a) + encode_utf8(b) =~= encode_utf8(b));
    } else {
        lemma_encode_concat(a.drop_first(), b);
        assert((a + b).drop_first() =~= a.drop_first() + b);
        assert((a + b)[0] == a[0]);
        assert(encode_utf8(a + b) =~= encode_utf8(a) + encode_utf8(b));
    }
}

/// One more character is as many more bytes as it is wide.
proof fn lemma_next_char(text: Seq<char>, n: int)
    requires
        0 <= n < text.len(),
    ensures
        encode_utf8(text.take(n + 1)).len() == encode_utf8(text.take(n)).len() + encode_scalar(
            text[n] as u32,
        ).len(),
        encode_utf8(text.take(n + 1)).len() <= encode_utf8(text).len(),
{
    let c = seq![text[n]];
    lemma_encode_concat(text.take(n), c);
    assert(text.take(n + 1) =~= text.take(n) + c);
    assert(c.drop_first() =~= Seq::<char>::empty());
    assert(encode_utf8(c) =~= encode_scalar(text[n] as u32)) by {
        reveal_with_fuel(encode_utf8, 2);
    }
    lemma_encode_concat(text.take(n + 1), text.skip(n + 1));
    assert(text =~= text.take(n + 1) + text.skip(n + 1));
}

/// A shorter beginning of a text has no more bytes.
proof fn lemma_byte_offset_grows(text: Seq<char>, a: nat, b: nat)
    requires
        a <= b,
    ensures
        byte_offset(text, a) <= byte_offset(text, b) <= encode_utf8(text).len(),
    decreases b - a,
{
    if a < b {
        lemma_byte_offset_grows(text, a, (b - 1) as nat);
        if b <= text.len() {
            lemma_next_char(text, b - 1);
        }
    } else if a < text.len() {
        lemma_next_char(text, a as int);
    } else {
        assert(text.take(text.len() as int) =~= text);
    }
}

/// The number of bytes that a character takes in UTF-8.
fn utf8_width(c: char) -> (width: usize)
    ensures
        width == encode_scalar(c as u32).len(),
        1 <= width <= 4,
{
    let scalar: u32 = c as u32;
    if scalar <= 0x7f {
        1
    } else if scalar <= 0x7ff {
        2
    } else if scalar <= 0xffff {
        3
    } else {
        4
    }
}

impl<F> IosTextSystem<F> {
    /// The parts of a line and the fonts to set them in.
    ///
    /// A run counts characters; one that counts more than are left takes what
    /// is left.
    pub fn font_spans(&self, text: &str, runs: &[FontRun]) -> (spans: Vec<FontSpan>)
        requires
            chars_before(runs@, runs@.len() as int) <= usize::MAX,
        ensures
            spans@ == spans_of(text@, runs@, runs@.len() as int, self.fonts().len()),
    {
        let total: usize = text.as_bytes().len();
        let mut spans: Vec<FontSpan> = Vec::new();
        let mut chars = text.chars();
        let ghost mut taken: int = 0;
        let mut byte_start: usize = 0;
        let mut char_start: usize = 0;
        let mut i: usize = 0;
        assert(text@.skip(0) =~= text@);
        while i < runs.len()
            invariant
                i <= runs.len(),
                chars_before(runs@, runs@.len() as int) <= usize::MAX,
                total == encode_utf8(text@).len(),
                char_start == chars_before(runs@, i as int),
                0 <= taken <= text@.len(),
                taken == if char_start < text@.len() {
                    char_start as int
                } else {
                    text@.len() as int
                },
                byte_start == byte_offset(text@, char_start as nat),
                vstd::std_specs::iter::IteratorSpec::remaining(&chars) == text@.skip(taken),
                spans@ == spans_of(text@, runs@, i as int, self.fonts().len()),
            decreases runs.len() - i,
        {
            let run = runs[i];
            proof {
                lemma_chars_before_grows(runs@, i + 1, runs@.len() as int);
            }
            let mut byte_end: usize = byte_start;
            let mut count: usize = 0;
            let mut exhausted: bool = false;
            while count < run.len && !exhausted
                invariant
                    count <= run.len,
                    char_start + run.len <= usize::MAX,
                    total == encode_utf8(text@).len(),
                    0 <= taken <= text@.len(),
                    exhausted ==> taken == text@.len(),
                    taken == if char_start + count < text@.len() {
                        char_start + count
                    } else {
                        text@.len() as int
                    },
                    byte_end == encode_utf8(text@.take(taken)).len(),
                    vstd::std_specs::iter::IteratorSpec::remaining(&chars) == text@.skip(taken),
                decreases
                        run.len - count,
                        if exhausted {
                            0int
                        } else {
                            1int
                        },
            {
                match chars.next() {
                    Some(c) => {
                        proof {
                            assert(text@.skip(taken).len() > 0);
                            assert(c == text@[taken]);
                            lemma_next_char(text@, taken);
                            assert(text@.skip(taken).drop_first() =~= text@.skip(taken + 1));
                        }
                        byte_end = byte_end + utf8_width(c);
                        count = count + 1;
                        proof {
                            taken = taken + 1;
                        }
                    },
                    None => {
                        exhausted = true;
                    },
                }
            }
            if run.len != 0 && self.has_font(run.font_id) {
                spans.push(
                    FontSpan {
                        location: char_start as isize,
                        length: run.len as isize,
                        font_id: run.font_id,
                        byte_start,
                        byte_end,
                    },
                );
            }
            byte_start = byte_end;
            char_start = char_start + run.len;
            i = i + 1;
        }
        spans
    }
}

/// The end of the first characters of a text is where a character ends.
proof fn lemma_byte_offset_is_boundary(text: Seq<char>, n: int)
    requires
        0 <= n <= text.len(),
    ensures
        is_char_boundary(encode_utf8(text), encode_utf8(text.take(n)).len() as int),
    decreases n,
{
    let bytes = encode_utf8(text);
    encode_utf8_valid_utf8(text);
    if n == 0 {
        assert(text.take(0) =~= Seq::<char>::empty());
    } else {
        let rest = text.drop_first();
        encode_utf8_first_scalar(text);
        assert(pop_first_scalar(bytes) =~= encode_utf8(rest));
        lemma_byte_offset_is_boundary(rest, n - 1);
        assert(text.take(n).drop_first() =~= rest.take(n - 1));
        assert(text.take(n)[0] == text[0]);
        lemma_encode_concat(text.take(n), text.skip(n));
        assert(text =~= text.take(n) + text.skip(n));
    }
}

/// The parts that the runs of a line set follow one another from the start of
/// the text, lie within it, and never cut a character in two.
pub proof fn law_spans_partition_the_text(text: Seq<char>, runs: Seq<FontRun>, i: int)
    requires
        0 <= i < runs.len(),
        encode_utf8(text).len() <= usize::MAX,
    ensures
        ({
            let span = span_of(text, runs, i);
            &&& i == 0 ==> span.byte_start == 0
            &&& i + 1 < runs.len() ==> span_of(text, runs, i + 1).byte_start == span.byte_end
            &&& span.byte_start <= span.byte_end <= encode_utf8(text).len()
            &&& is_char_boundary(encode_utf8(text), span.byte_start as int)
            &&& is_char_boundary(encode_utf8(text), span.byte_end as int)
        }),
{
    let (a, b) = (chars_before(runs, i), chars_before(runs, i + 1));
    lemma_byte_offset_grows(text, a, b);
    assert(text.take(0) =~= Seq::<char>::empty());
    lemma_byte_offset_is_boundary(
        text,
        if a < text.len() {
            a as int
        } else {
            text.len() as int
        },
    );
    lemma_byte_offset_is_boundary(
        text,
        if b < text.len() {
            b as int
        } else {
            text.len() as int
        },
    );
}

/// More runs have no fewer characters.
proof fn lemma_chars_before_grows(runs: Seq<FontRun>, a: int, b: int)
    requires
        0 <= a <= b,
    ensures
        chars_before(runs, a) <= chars_before(runs, b),
    decreases b - a,
{
    if a < b {
        lemma_chars_before_grows(runs, a, b - 1);
    }
}

/// The glyph at position `i` of a run. CoreText may report fewer positions or
/// text indices than glyphs: then the glyph sits at the origin, or stems from the
/// place in the text that it has in the run.
pub open spec fn shaped_glyph(run: CtRun, i: int) -> ShapedGlyph {
    ShapedGlyph {
        id: GlyphId(run.glyphs@[i] as u32),
        position: if i < run.positions@.len() {
            run.positions@[i]
        } else {
            Point::<Pixels>::origin()
        },
        index: if i < run.string_indices@.len() {
            run.string_indices@[i] as usize
        } else {
            i as usize
        },
        is_emoji: false,
    }
}

/// The glyphs of a run.
pub open spec fn shaped_run(run: CtRun, font_id: FontId) -> ShapedRunView {
    ShapedRunView {
        font_id,
        glyphs: Seq::new(run.glyphs@.len(), |i: int| shaped_glyph(run, i)),
    }
}

/// The runs of a line, without those that count no glyphs.
pub open spec fn shaped_runs(runs: Seq<CtRun>, font_id: FontId) -> Seq<ShapedRunView>
    decreases runs.len(),
{
    if runs.len() == 0 {
        Seq::empty()
    } else {
        let before = shaped_runs(runs.drop_last(), font_id);
        if runs.last().glyph_count == 0 {
            before
        } else {
            before.push(shaped_run(runs.last(), font_id))
        }
    }
}

/// The layout of a line without text or fonts.
pub open spec fn blank_line(font_size: Pixels) -> LineLayoutView {
    LineLayoutView {
        font_size,
        width: Pixels::zero(),
        ascent: Pixels::zero(),
        descent: Pixels::zero(),
        runs: Seq::empty(),
        len: 0,
    }
}

/// The layout of a line, from what CoreText made of it. All glyphs go to the
/// font of the first run.
pub open spec fn line_layout_of(
    text: Seq<char>,
    font_size: Pixels,
    runs: Seq<FontRun>,
    line: CtLine,
) -> LineLayoutView {
    if runs.len() == 0 || text.len() == 0 {
        blank_line(font_size)
    } else {
        LineLayoutView {
            font_size,
            width: line.width,
            ascent: line.ascent,
            descent: line.descent,
            runs: shaped_runs(line.runs@, runs[0].font_id),
            len: encode_utf8(text).len(),
        }
    }
}

/// Gathers the glyphs of a run.
fn shape_run(run: &CtRun, font_id: FontId) -> (shaped: ShapedRun)
    ensures
        shaped@ == shaped_run(*run, font_id),
{
    let mut glyphs: Vec<ShapedGlyph> = Vec::new();
    let mut i: usize = 0;
    while i < run.glyphs.len()
        invariant
            i <= run.glyphs.len(),
            glyphs@.len() == i,
            forall|j: int| 0 <= j < i ==> #[trigger] glyphs@[j] == shaped_glyph(*run, j),
        decreases run.glyphs.len() - i,
    {
        let glyph: u16 = run.glyphs[i];
        let position = if i < run.positions.len() {
            run.positions[i]
        } else {
            Point::<Pixels>::origin()
        };
        let index: usize = if i < run.string_indices.len() {
            run.string_indices[i] as usize
        } else {
            i
        };
        glyphs.push(
            ShapedGlyph {
                id: GlyphId(glyph as u32),
                position,
                index,
                is_emoji: glyph_is_emoji(glyph),
            },
        );
        i = i + 1;
    }
    assert(glyphs@ =~= shaped_run(*run, font_id).glyphs);
    ShapedRun { font_id, glyphs }
}

impl<F> IosTextSystem<F> {
    /// The font that a run of glyphs was set in. CoreText is not asked, so this
    /// is not known.
    fn font_id_for_ct_run_font(&self, _run: &CtRun) -> (font_id: Option<FontId>)
        ensures
            font_id is None,
    {
        None
    }

    /// The font whose ascent and descent a line has: that of the first run, if
    /// it is loaded. Without one, four fifths and one fifth of the font size
    /// take their place.
    pub fn metrics_font(&self, runs: &[FontRun]) -> (font_id: Option<FontId>)
        ensures
            font_id == if runs@.len() > 0 && runs@[0].font_id.0 < self.fonts().len() {
                Some(runs@[0].font_id)
            } else {
                None
            },
    {
        if runs.len() > 0 && self.has_font(runs[0].font_id) {
            Some(runs[0].font_id)
        } else {
            None
        }
    }

    /// Lays out a line from what CoreText made of it. A line without text or
    /// without runs is blank, whatever `line` holds.
    pub fn layout_line(
        &self,
        text: &str,
        font_size: Pixels,
        runs: &[FontRun],
        line: &CtLine,
    ) -> (layout: LineLayout)
        ensures
            layout@ == line_layout_of(text@, font_size, runs@, *line),
    {
        if runs.len() == 0 || text.is_empty() {
            let layout = LineLayout {
                font_size,
                width: Pixels::zero(),
                ascent: Pixels::zero(),
                descent: Pixels::zero(),
                runs: Vec::new(),
                len: 0,
            };
            assert(layout@.runs =~= Seq::<ShapedRunView>::empty());
            return layout;
        }
        let mut shaped: Vec<ShapedRun> = Vec::new();
        let mut i: usize = 0;
        assert(line.runs@.take(0) =~= Seq::<CtRun>::empty());
        while i < line.runs.len()
            invariant
                i <= line.runs.len(),
                runs@.len() > 0,
                shaped@.map_values(|run: ShapedRun| run@) == shaped_runs(
                    line.runs@.take(i as int),
                    runs@[0].font_id,
                ),
            decreases line.runs.len() - i,
        {
            let ghost before = shaped@.map_values(|run: ShapedRun| run@);
            assert(line.runs@.take(i + 1).drop_last() =~= line.runs@.take(i as int));
            assert(line.runs@.take(i + 1).last() == line.runs@[i as int]);
            let run = &line.runs[i];
            if run.glyph_count != 0 {
                let font_id = match self.font_id_for_ct_run_font(run) {
                    Some(id) => id,
                    None => runs[0].font_id,
                };
                let next = shape_run(run, font_id);
                let ghost view = next@;
                shaped.push(next);
                assert(shaped@.map_values(|run: ShapedRun| run@) =~= before.push(view));
            }
            i = i + 1;
        }
        assert(line.runs@.take(i as int) =~= line.runs@);
        LineLayout {
            font_size,
            width: line.width,
            ascent: line.ascent,
            descent: line.descent,
            runs: shaped,
            len: text.as_bytes().len(),
        }
    }
}

/// The runs of a layout are, in the same order, those that CoreText reported with
/// glyphs: each has all glyphs of its run, and none is left out.
pub proof fn law_layout_keeps_the_glyphs(runs: Seq<CtRun>, font_id: FontId)
    ensures
        shaped_runs(runs, font_id) == runs.filter(|run: CtRun| run.glyph_count != 0).map_values(
            |run: CtRun| shaped_run(run, font_id),
        ),
    decreases runs.len(),
{
    reveal(Seq::filter);
    let has_glyphs = |run: CtRun| run.glyph_count != 0;
    let shape = |run: CtRun| shaped_run(run, font_id);
    if runs.len() > 0 {
        let rest = runs.drop_last();
        law_layout_keeps_the_glyphs(rest, font_id);
        if has_glyphs(runs.last()) {
            assert(rest.filter(has_glyphs).push(runs.last()).map_values(shape) =~= rest.filter(
                has_glyphs,
            ).map_values(shape).push(shape(runs.last())));
        }
    } else {
        assert(runs.filter(has_glyphs).map_values(shape) =~= Seq::<ShapedRunView>::empty());
    }
}

/// Each glyph that CoreText reported is drawn. Of a line with text and fonts, the
/// layout has a run for every run that CoreText reported with glyphs, in the same
/// order and in the font of the first font run; that run has as many glyphs, and
/// each of them its number, its position and its place in the text. Where CoreText
/// reported no position or place for a glyph, it sits at the origin, or stems from
/// the place that it has in the run.
pub proof fn law_layout_draws_every_glyph(
    text: Seq<char>,
    font_size: Pixels,
    runs: Seq<FontRun>,
    line: CtLine,
    k: int,
    i: int,
)
    requires
        runs.len() > 0,
        text.len() > 0,
    ensures
        ({
            let layout = line_layout_of(text, font_size, runs, line);
            let reported = line.runs@.filter(|run: CtRun| run.glyph_count != 0);
            &&& layout.runs.len() == reported.len()
            &&& 0 <= k < reported.len() ==> {
                &&& layout.runs[k].font_id == runs[0].font_id
                &&& layout.runs[k].glyphs.len() == reported[k].glyphs@.len()
                &&& 0 <= i < reported[k].glyphs@.len() ==> {
                    let glyph = layout.runs[k].glyphs[i];
                    &&& glyph.id.0 == reported[k].glyphs@[i]
                    &&& !glyph.is_emoji
                    &&& i < reported[k].positions@.len() ==> glyph.position
                        == reported[k].positions@[i]
                    &&& i >= reported[k].positions@.len() ==> glyph.position.x.bits == 0
                        && glyph.position.y.bits == 0
                    &&& i < reported[k].string_indices@.len() ==> glyph.index
                        == reported[k].string_indices@[i] as usize
                    &&& i < reported[k].string_indices@.len() && reported[k].string_indices@[i] >= 0
                        ==> glyph.index == reported[k].string_indices@[i]
                    &&& i >= reported[k].string_indices@.len() ==> glyph.index == i
                }
            }
        }),
{
    law_layout_keeps_the_glyphs(line.runs@, runs[0].font_id);
    let reported = line.runs@.filter(|run: CtRun| run.glyph_count != 0);
    if 0 <= k < reported.len() && 0 <= i < reported[k].glyphs@.len() {
        assert(reported[k].glyphs.len() == reported[k].glyphs@.len());
    }
}

/// A line keeps the measures that CoreText reported for it, its font size, and the
/// number of bytes of its text.
pub proof fn law_layout_keeps_the_measures(
    text: Seq<char>,
    font_size: Pixels,
    runs: Seq<FontRun>,
    line: CtLine,
)
    ensures
        ({
            let layout = line_layout_of(text, font_size, runs, line);
            &&& layout.font_size == font_size
            &&& text.len() > 0 && runs.len() > 0 ==> {
                &&& layout.width == line.width
                &&& layout.ascent == line.ascent
                &&& layout.descent == line.descent
                &&& layout.len == encode_utf8(text).len()
            }
            &&& text.len() == 0 || runs.len() == 0 ==> {
                &&& layout.width.bits == 0
                &&& layout.ascent.bits == 0
                &&& layout.descent.bits == 0
                &&& layout.runs.len() == 0
                &&& layout.len == 0
            }
        }),
{
}

/// What a layout says of a line is what it holds: every run with its font and all
/// of its glyphs, and the measures.
pub proof fn law_layout_holds_what_it_says(layout: LineLayout, k: int)
    ensures
        layout@.runs.len() == layout.runs@.len(),
        0 <= k < layout.runs@.len() ==> layout@.runs[k].font_id == layout.runs@[k].font_id
            && layout@.runs[k].glyphs == layout.runs@[k].glyphs@,
        layout@.font_size == layout.font_size,
        layout@.width == layout.width,
        layout@.ascent == layout.ascent,
        layout@.descent == layout.descent,
        layout@.len == layout.len,
{
}

/// Runs are counted one after the other: each adds its own length.
pub proof fn law_runs_count_one_after_the_other(runs: Seq<FontRun>, n: int)
    requires
        0 <= n < runs.len(),
    ensures
        chars_before(runs, 0) == 0,
        chars_before(runs, n + 1) == chars_before(runs, n) + runs[n].len,
{
}

/// A number of characters takes the bytes that these characters encode to; more
/// characters than there are take all bytes.
pub proof fn law_offset_is_the_bytes_of_the_characters(a: Seq<char>, b: Seq<char>, more: nat)
    ensures
        byte_offset(a + b, a.len()) == encode_utf8(a).len(),
        byte_offset(a, a.len() + more) == encode_utf8(a).len(),
{
    assert((a + b).take(a.len() as int) =~= a);
    assert(a.take(a.len() as int) =~= a);
}

/// A run sets exactly its own characters: the bytes of its part are what those
/// characters encode to, its range counts the characters before it and its own,
/// and its font is that of the run.
pub proof fn law_span_covers_its_characters(
    before: Seq<char>,
    own: Seq<char>,
    after: Seq<char>,
    runs: Seq<FontRun>,
    i: int,
)
    requires
        0 <= i < runs.len(),
        before.len() == chars_before(runs, i),
        own.len() == runs[i].len,
        encode_utf8(before + own + after).len() <= usize::MAX,
    ensures
        ({
            let text = before + own + after;
            let span = span_of(text, runs, i);
            &&& span.byte_start <= span.byte_end <= encode_utf8(text).len()
            &&& encode_utf8(text).subrange(span.byte_start as int, span.byte_end as int)
                == encode_utf8(own)
            &&& span.font_id == runs[i].font_id
            &&& before.len() <= isize::MAX ==> span.location == before.len()
            &&& own.len() <= isize::MAX ==> span.length == own.len()
        }),
{
    let text = before + own + after;
    lemma_encode_concat(before, own);
    lemma_encode_concat(before + own, after);
    assert(text.take(before.len() as int) =~= before);
    assert(text.take((before + own).len() as int) =~= before + own);
    assert(chars_before(runs, i + 1) == (before + own).len());
    assert(byte_offset(text, chars_before(runs, i)) == encode_utf8(before).len());
    assert(byte_offset(text, chars_before(runs, i + 1)) == encode_utf8(before + own).len());
    assert(encode_utf8(text).subrange(
        encode_utf8(before).len() as int,
        encode_utf8(before + own).len() as int,
    ) =~= encode_utf8(own));
}

/// Every run that counts characters and whose font is loaded sets its part, in the
/// order of the runs, and no other run sets one.
pub proof fn law_every_run_with_a_font_sets_its_part(
    text: Seq<char>,
    runs: Seq<FontRun>,
    n: int,
    font_count: nat,
)
    requires
        0 <= n <= runs.len(),
    ensures
        spans_of(text, runs, n, font_count) == Seq::new(n as nat, |i: int| i).filter(
            |i: int| runs[i].len != 0 && runs[i].font_id.0 < font_count,
        ).map_values(|i: int| span_of(text, runs, i)),
    decreases n,
{
    reveal(Seq::filter);
    let sets = |i: int| runs[i].len != 0 && runs[i].font_id.0 < font_count;
    let span = |i: int| span_of(text, runs, i);
    let all = Seq::new(n as nat, |i: int| i);
    if n > 0 {
        law_every_run_with_a_font_sets_its_part(text, runs, n - 1, font_count);
        let rest = Seq::new((n - 1) as nat, |i: int| i);
        assert(all.drop_last() =~= rest);
        assert(all.last() == n - 1);
        if sets(n - 1) {
            assert(rest.filter(sets).push(n - 1).map_values(span) =~= rest.filter(sets).map_values(
                span,
            ).push(span(n - 1)));
        }
    } else {
        assert(all.filter(sets).map_values(span) =~= Seq::<FontSpan>::empty());
    }
}

/// The range handed to CoreText counts the characters before a run and those of
/// the run, also where the text is shorter; the bytes end with the text.
pub proof fn law_long_runs_keep_their_range(text: Seq<char>, runs: Seq<FontRun>, i: int)
    requires
        0 <= i < runs.len(),
        encode_utf8(text).len() <= usize::MAX,
    ensures
        ({
            let span = span_of(text, runs, i);
            &&& span.font_id == runs[i].font_id
            &&& span.location == chars_before(runs, i) as isize
            &&& span.length == runs[i].len as isize
            &&& text.len() <= chars_before(runs, i) ==> span.byte_start == encode_utf8(text).len()
            &&& text.len() <= chars_before(runs, i) + runs[i].len ==> span.byte_end == encode_utf8(
                text,
            ).len()
        }),
{
    assert(text.take(text.len() as int) =~= text);
    lemma_byte_offset_grows(text, chars_before(runs, i), chars_before(runs, i + 1));
}

} // verus!
