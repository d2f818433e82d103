//! Page layout: justification ordering across text spans, per-line metric
//! combination, and the vertical baseline of every span.

use vstd::prelude::*;
use crate::state::State;
use crate::values::{ErrModel, PageJustification, SyntaxError, Value};

verus! {

/// Metrics of one font: glyph height and nominal line spacing, in pixels.
#[derive(Clone, Copy, Debug)]
pub struct FontInfo {
    pub height: u16,
    pub line_spacing: u16,
}

/// Fonts known to the sign, by font number.  A lookup returns the first
/// entry with the requested number.
#[derive(Debug)]
pub struct FontCache {
    pub fonts: Vec<(u8, FontInfo)>,
}

/// First entry of `s` with font number `fnum`, if any.
pub open spec fn spec_font_lookup(s: Seq<(u8, FontInfo)>, fnum: u8) -> Option<FontInfo>
    decreases s.len(),
{
    if s.len() == 0 {
        None
    } else if s[0].0 == fnum {
        Some(s[0].1)
    } else {
        spec_font_lookup(s.drop_first(), fnum)
    }
}

proof fn lemma_font_lookup_skip(s: Seq<(u8, FontInfo)>, fnum: u8, i: int)
    requires
        0 <= i <= s.len(),
        forall|j: int| 0 <= j < i ==> (#[trigger] s[j]).0 != fnum,
    ensures
        spec_font_lookup(s, fnum) == spec_font_lookup(s.skip(i), fnum),
    decreases i,
{
    if i > 0 {
        assert(s.drop_first() =~= s.skip(1));
        assert(forall|j: int| 0 <= j < i - 1 ==> (#[trigger] s.skip(1)[j]).0 != fnum);
        lemma_font_lookup_skip(s.skip(1), fnum, i - 1);
        assert(s.skip(1).skip(i - 1) =~= s.skip(i));
    } else {
        assert(s.skip(0) =~= s);
    }
}

impl FontCache {
    /// Create an empty font cache.
    pub fn new() -> (r: FontCache)
        ensures
            r.fonts@.len() == 0,
    {
        FontCache { fonts: Vec::new() }
    }

    /// Add a font's metrics under its number.
    pub fn insert(&mut self, fnum: u8, info: FontInfo)
        ensures
            final(self).fonts@ == old(self).fonts@.push((fnum, info)),
    {
        self.fonts.push((fnum, info));
    }

    /// Look up the metrics of font `fnum`.
    pub fn lookup(&self, fnum: u8) -> (r: Option<FontInfo>)
        ensures
            r == spec_font_lookup(self.fonts@, fnum),
    {
        let mut i: usize = 0;
        while i < self.fonts.len()
            invariant
                0 <= i <= self.fonts@.len(),
                forall|j: int| 0 <= j < i ==> (#[trigger] self.fonts@[j]).0 != fnum,
            decreases self.fonts@.len() - i,
        {
            if self.fonts[i].0 == fnum {
                proof {
                    lemma_font_lookup_skip(self.fonts@, fnum, i as int);
                }
                return Some(self.fonts[i].1);
            }
            i = i + 1;
        }
        proof {
            lemma_font_lookup_skip(self.fonts@, fnum, self.fonts@.len() as int);
            assert(self.fonts@.skip(self.fonts@.len() as int) =~= Seq::<(u8, FontInfo)>::empty());
        }
        None
    }
}

/// A run of text paired with the presentation state at its start.
#[derive(Debug)]
pub struct TextSpan {
    pub state: State,
    pub text: String,
}

/// Mathematical image of a [`TextSpan`].
pub struct SpanModel {
    pub state: State,
    pub text: Seq<char>,
}

impl View for TextSpan {
    type V = SpanModel;

    open spec fn view(&self) -> SpanModel {
        SpanModel { state: self.state, text: self.text@ }
    }
}

/// Glyph height of a span: its font's height, or 7 when the font is
/// unknown to the cache.
pub open spec fn spec_span_height(s: TextSpan, fonts: FontCache) -> u16 {
    match spec_font_lookup(fonts.fonts@, s.state.font.0) {
        Some(f) => f.height,
        None => 7,
    }
}

/// Nominal line spacing of a span's font, or 0 when the font is unknown.
pub open spec fn spec_span_font_spacing(s: TextSpan, fonts: FontCache) -> u16 {
    match spec_font_lookup(fonts.fonts@, s.state.font.0) {
        Some(f) => f.line_spacing,
        None => 0,
    }
}

/// Explicit line spacing of a span's state, widened to pixels.
pub open spec fn spec_span_line_spacing(s: TextSpan) -> Option<u16> {
    match s.state.line_spacing {
        Some(v) => Some(v as u16),
        None => None,
    }
}

impl TextSpan {
    /// Create a new text span.
    pub fn new(state: State, text: String) -> (r: TextSpan)
        ensures
            r.state == state,
            r.text@ == text@,
    {
        TextSpan { state, text }
    }

    /// Get the glyph height of the span.
    pub fn height(&self, fonts: &FontCache) -> (h: u16)
        ensures
            h == spec_span_height(*self, *fonts),
    {
        match fonts.lookup(self.state.font.0) {
            Some(f) => f.height,
            None => 7,
        }
    }

    /// Get the font line spacing of the span.
    pub fn font_spacing(&self, fonts: &FontCache) -> (s: u16)
        ensures
            s == spec_span_font_spacing(*self, *fonts),
    {
        match fonts.lookup(self.state.font.0) {
            Some(f) => f.line_spacing,
            None => 0,
        }
    }

    /// Get the explicit line spacing of the span, if any.
    pub fn line_spacing(&self) -> (s: Option<u16>)
        ensures
            s == spec_span_line_spacing(*self),
    {
        match self.state.line_spacing {
            Some(v) => Some(v as u16),
            None => None,
        }
    }
}

/// Aggregate metrics of one text line: the maxima over its spans, and the
/// first explicit spacing override among them.
#[derive(Clone, Copy, Debug)]
pub struct TextLine {
    pub height: u16,
    pub font_spacing: u16,
    pub line_spacing: Option<u16>,
}

/// Merge of two lines' metrics: maxima of heights and font spacings; the
/// first explicit override wins.
pub open spec fn spec_combine(a: TextLine, b: TextLine) -> TextLine {
    TextLine {
        height: if a.height >= b.height {
            a.height
        } else {
            b.height
        },
        font_spacing: if a.font_spacing >= b.font_spacing {
            a.font_spacing
        } else {
            b.font_spacing
        },
        line_spacing: match a.line_spacing {
            Some(v) => Some(v),
            None => b.line_spacing,
        },
    }
}

/// Spacing between two adjacent lines, `a` below `b`: an explicit
/// override from either neighbor (the lower line's first), else the
/// average of the two font line spacings rounded up to a whole pixel.
pub open spec fn spec_spacing(a: TextLine, b: TextLine) -> u16 {
    match a.line_spacing {
        Some(v) => v,
        None => match b.line_spacing {
            Some(v) => v,
            None => ((a.font_spacing + b.font_spacing + 1) / 2) as u16,
        },
    }
}

impl TextLine {
    /// Create a new text line.
    pub fn new(height: u16, font_spacing: u16, line_spacing: Option<u16>) -> (r: TextLine)
        ensures
            r == (TextLine { height, font_spacing, line_spacing }),
    {
        TextLine { height, font_spacing, line_spacing }
    }

    /// Fold another span's metrics into this line.
    pub fn combine(&mut self, other: &TextLine)
        ensures
            *final(self) == spec_combine(*old(self), *other),
    {
        self.height = if self.height >= other.height {
            self.height
        } else {
            other.height
        };
        self.font_spacing = if self.font_spacing >= other.font_spacing {
            self.font_spacing
        } else {
            other.font_spacing
        };
        self.line_spacing = match self.line_spacing {
            Some(v) => Some(v),
            None => other.line_spacing,
        };
    }

    /// Get the spacing between this line and the one above it.
    pub fn spacing(&self, other: &TextLine) -> (s: u16)
        ensures
            s == spec_spacing(*self, *other),
    {
        match self.line_spacing {
            Some(v) => v,
            None => match other.line_spacing {
                Some(v) => v,
                None => {
                    let sum: u32 = self.font_spacing as u32 + other.font_spacing as u32 + 1;
                    (sum / 2) as u16
                },
            },
        }
    }
}

/// Which spans of a page share a line block with a target span, for the
/// three page justifications.
#[derive(Clone, Copy, PartialEq, Eq, Structural, Debug)]
pub enum SpanMatch {
    Top,
    Middle,
    Bottom,
}

/// Whether span state `a` belongs to the line block measured for a span
/// with state `b`, under matcher `m`.
pub open spec fn spec_span_in_block(m: SpanMatch, a: State, b: State) -> bool {
    match m {
        SpanMatch::Top => a.spec_matches_top(b),
        SpanMatch::Middle => a.spec_matches_middle(b),
        SpanMatch::Bottom => a.spec_matches_bottom(b),
    }
}

/// Check whether span state `a` belongs to the block measured for `b`.
pub fn span_in_block(m: SpanMatch, a: &State, b: &State) -> (r: bool)
    ensures
        r == spec_span_in_block(m, *a, *b),
{
    match m {
        SpanMatch::Top => a.matches_top(b),
        SpanMatch::Middle => a.matches_middle(b),
        SpanMatch::Bottom => a.matches_bottom(b),
    }
}

/// Lines built by folding the matching spans of a page, in order, into
/// the accumulator `acc`: a span with a line number beyond the built
/// lines opens a new one; otherwise it merges into the line of its
/// number.
pub open spec fn spec_lines(
    spans: Seq<TextSpan>,
    target: State,
    m: SpanMatch,
    fonts: FontCache,
    acc: Seq<TextLine>,
) -> Seq<TextLine>
    decreases spans.len(),
{
    if spans.len() == 0 {
        acc
    } else {
        let s = spans[0];
        let acc2 = if spec_span_in_block(m, s.state, target) {
            let ln = s.state.line_number as int;
            let line = TextLine {
                height: spec_span_height(s, fonts),
                font_spacing: spec_span_font_spacing(s, fonts),
                line_spacing: spec_span_line_spacing(s),
            };
            if ln >= acc.len() {
                acc.push(line)
            } else {
                acc.update(ln, spec_combine(acc[ln], line))
            }
        } else {
            acc
        };
        spec_lines(spans.drop_first(), target, m, fonts, acc2)
    }
}

proof fn lemma_spec_lines_len(
    spans: Seq<TextSpan>,
    target: State,
    m: SpanMatch,
    fonts: FontCache,
    acc: Seq<TextLine>,
)
    ensures
        spec_lines(spans, target, m, fonts, acc).len() <= acc.len() + spans.len(),
    decreases spans.len(),
{
    if spans.len() > 0 {
        let s = spans[0];
        let acc2 = if spec_span_in_block(m, s.state, target) {
            let ln = s.state.line_number as int;
            let line = TextLine {
                height: spec_span_height(s, fonts),
                font_spacing: spec_span_font_spacing(s, fonts),
                line_spacing: spec_span_line_spacing(s),
            };
            if ln >= acc.len() {
                acc.push(line)
            } else {
                acc.update(ln, spec_combine(acc[ln], line))
            }
        } else {
            acc
        };
        lemma_spec_lines_len(spans.drop_first(), target, m, fonts, acc2);
    }
}

/// Sum of the line heights.
pub open spec fn spec_sum_heights(lines: Seq<TextLine>) -> int
    decreases lines.len(),
{
    if lines.len() == 0 {
        0
    } else {
        spec_sum_heights(lines.drop_last()) + lines.last().height
    }
}

/// Sum of the spacings between each pair of adjacent lines.
pub open spec fn spec_sum_spacing(lines: Seq<TextLine>) -> int
    decreases lines.len(),
{
    if lines.len() <= 1 {
        0
    } else {
        spec_sum_spacing(lines.drop_last()) + spec_spacing(
            lines.last(),
            lines[lines.len() - 2],
        )
    }
}

/// Total vertical extent of the line block that matcher `m` selects for a
/// span with state `target`: summed line heights plus summed inter-line
/// spacings.
pub open spec fn spec_offset_vert(
    spans: Seq<TextSpan>,
    target: State,
    m: SpanMatch,
    fonts: FontCache,
) -> int {
    let lines = spec_lines(spans, target, m, fonts, Seq::empty());
    spec_sum_heights(lines) + spec_sum_spacing(lines)
}

/// A pixel bitmap in row-major RGBA byte order.
#[derive(Debug)]
pub struct Raster {
    pub width: u16,
    pub height: u16,
    pub pixels: Vec<u8>,
}

/// The four bytes of pixel `i` of a raster's byte sequence.
pub open spec fn spec_pixel(p: Seq<u8>, i: int) -> [u8; 4] {
    [p[4 * i], p[4 * i + 1], p[4 * i + 2], p[4 * i + 3]]
}

impl Raster {
    /// Allocate a raster of the given size with every pixel set to
    /// `rgba`.
    pub fn new(width: u16, height: u16, rgba: [u8; 4]) -> (r: Raster)
        ensures
            r.width == width,
            r.height == height,
            r.pixels@.len() == 4 * (width as int) * (height as int),
            forall|i: int|
                0 <= i < (width as int) * (height as int) ==> #[trigger] spec_pixel(
                    r.pixels@,
                    i,
                ) == rgba,
    {
        proof {
            assert((width as int) * (height as int) <= 65535 * 65535) by (nonlinear_arith)
                requires
                    width <= 65535 && height <= 65535,
            ;
            assert((width as int) * (height as int) >= 0) by (nonlinear_arith)
                requires
                    width >= 0 && height >= 0,
            ;
        }
        let n: usize = (width as usize) * (height as usize);
        let mut pixels: Vec<u8> = Vec::new();
        let mut k: usize = 0;
        while k < n
            invariant
                0 <= k <= n,
                n == (width as int) * (height as int),
                pixels@.len() == 4 * k,
                forall|i: int| 0 <= i < k ==> #[trigger] spec_pixel(pixels@, i) == rgba,
            decreases n - k,
        {
            let ghost p0 = pixels@;
            pixels.push(rgba[0]);
            pixels.push(rgba[1]);
            pixels.push(rgba[2]);
            pixels.push(rgba[3]);
            proof {
                assert(pixels@ =~= p0 + seq![rgba[0], rgba[1], rgba[2], rgba[3]]);
                assert forall|i: int| 0 <= i < k + 1 implies #[trigger] spec_pixel(pixels@, i)
                    == rgba by {
                    if i < k {
                        assert(spec_pixel(p0, i) == rgba);
                        assert(pixels@[4 * i] == p0[4 * i]);
                        assert(pixels@[4 * i + 1] == p0[4 * i + 1]);
                        assert(pixels@[4 * i + 2] == p0[4 * i + 2]);
                        assert(pixels@[4 * i + 3] == p0[4 * i + 3]);
                    } else {
                        assert(4 * i == p0.len());
                    }
                }
            }
            k = k + 1;
        }
        proof {
            assert(4 * (width as int) * (height as int) == 4 * ((width as int) * (
            height as int))) by (nonlinear_arith);
        }
        Raster { width, height, pixels }
    }
}

/// One finalized page: the page-level state, the ordered graphic and
/// color-rectangle directives, and the ordered text spans.
#[derive(Debug)]
pub struct PageRenderer {
    pub state: State,
    pub values: Vec<Value>,
    pub spans: Vec<TextSpan>,
}

/// The span states of a page, in order.
pub open spec fn spec_states(spans: Seq<TextSpan>) -> Seq<State> {
    spans.map_values(|t: TextSpan| t.state)
}

/// A span state regresses against the running justification ranks: its
/// page justification ranks lower, or, on the same page justification
/// and line, its line justification ranks lower.
pub open spec fn spec_just_fail(s: State, jp: u8, jl: u8, ln: u8) -> bool {
    ||| s.just_page.spec_code() < jp
    ||| (s.just_page.spec_code() == jp && s.line_number == ln && s.just_line.spec_code() < jl)
}

/// The justification ranks across the span states never regress,
/// starting from ranks (`jp`, `jl`) on line `ln`.
pub open spec fn spec_just_ok(sts: Seq<State>, jp: u8, jl: u8, ln: u8) -> bool
    decreases sts.len(),
{
    if sts.len() == 0 {
        true
    } else if spec_just_fail(sts[0], jp, jl, ln) {
        false
    } else {
        spec_just_ok(
            sts.drop_first(),
            sts[0].just_page.spec_code(),
            sts[0].just_line.spec_code(),
            sts[0].line_number,
        )
    }
}

/// Adjacent spans keep non-decreasing justification order: page
/// justification never ranks lower, and on the same page justification
/// and line the line justification never ranks lower.
pub open spec fn spec_nondecreasing(sts: Seq<State>) -> bool {
    forall|i: int|
        0 <= i < sts.len() - 1 ==> !#[trigger] spec_just_fail(
            sts[i + 1],
            sts[i].just_page.spec_code(),
            sts[i].just_line.spec_code(),
            sts[i].line_number,
        )
}

proof fn lemma_just_ok_from(sts: Seq<State>, jp: u8, jl: u8, ln: u8)
    requires
        spec_nondecreasing(sts),
        sts.len() > 0 ==> !spec_just_fail(sts[0], jp, jl, ln),
    ensures
        spec_just_ok(sts, jp, jl, ln),
    decreases sts.len(),
{
    if sts.len() > 0 {
        let rest = sts.drop_first();
        assert forall|i: int| 0 <= i < rest.len() - 1 implies !#[trigger] spec_just_fail(
            rest[i + 1],
            rest[i].just_page.spec_code(),
            rest[i].just_line.spec_code(),
            rest[i].line_number,
        ) by {
            assert(rest[i] == sts[i + 1]);
            assert(rest[i + 1] == sts[i + 2]);
        }
        if rest.len() > 0 {
            assert(rest[0] == sts[1]);
        }
        lemma_just_ok_from(
            rest,
            sts[0].just_page.spec_code(),
            sts[0].just_line.spec_code(),
            sts[0].line_number,
        );
    }
}

proof fn lemma_just_ok_steps(sts: Seq<State>, jp: u8, jl: u8, ln: u8, i: int)
    requires
        spec_just_ok(sts, jp, jl, ln),
        0 <= i < sts.len() - 1,
    ensures
        !spec_just_fail(
            sts[i + 1],
            sts[i].just_page.spec_code(),
            sts[i].just_line.spec_code(),
            sts[i].line_number,
        ),
    decreases i,
{
    let rest = sts.drop_first();
    let cjp = sts[0].just_page.spec_code();
    let cjl = sts[0].just_line.spec_code();
    let cln = sts[0].line_number;
    assert(!spec_just_fail(sts[0], jp, jl, ln));
    assert(spec_just_ok(rest, cjp, cjl, cln));
    if i == 0 {
        assert(rest[0] == sts[1]);
        assert(rest.len() > 0);
        assert(!spec_just_fail(rest[0], cjp, cjl, cln));
    } else {
        assert(rest[i - 1] == sts[i]);
        assert(rest[i] == sts[i + 1]);
        lemma_just_ok_steps(rest, cjp, cjl, cln, i - 1);
    }
}

/// A regression between adjacent spans always conflicts: when a span's
/// justification ranks regress from its predecessor's (a left-justified
/// span after a right-justified one on the same page and line among
/// them), the page fails the justification check.
pub proof fn lemma_regression_conflicts(sts: Seq<State>, i: int)
    requires
        0 <= i < sts.len() - 1,
        spec_just_fail(
            sts[i + 1],
            sts[i].just_page.spec_code(),
            sts[i].just_line.spec_code(),
            sts[i].line_number,
        ),
    ensures
        !spec_just_ok(sts, 1, 1, 0),
{
    if spec_just_ok(sts, 1, 1, 0) {
        lemma_just_ok_steps(sts, 1, 1, 0, i);
    }
}

/// Spans in non-decreasing justification order never raise a
/// justification conflict: `check_justification` accepts exactly the
/// sequences `spec_just_ok` accepts, and this holds of every
/// non-decreasing sequence of span states.
pub proof fn lemma_nondecreasing_never_conflicts(sts: Seq<State>)
    requires
        spec_nondecreasing(sts),
    ensures
        spec_just_ok(sts, 1, 1, 0),
{
    if sts.len() > 0 {
        assert(sts[0].just_page.spec_code() >= 1);
        assert(sts[0].just_line.spec_code() >= 1);
    }
    lemma_just_ok_from(sts, 1, 1, 0);
}

impl PageRenderer {
    /// Create a new page renderer.
    pub fn new(state: State, values: Vec<Value>, spans: Vec<TextSpan>) -> (r: PageRenderer)
        ensures
            r.state == state,
            r.values == values,
            r.spans == spans,
    {
        PageRenderer { state, values, spans }
    }

    /// Check the page and line justification ordering of the spans:
    /// exactly the non-regressing sequences pass; a regression is a
    /// `TagConflict`.
    pub fn check_justification(&self) -> (res: Result<(), SyntaxError>)
        ensures
            res is Ok <==> spec_just_ok(spec_states(self.spans@), 1, 1, 0),
            res is Err ==> res->Err_0@ == ErrModel::TagConflict,
    {
        let ghost sts = spec_states(self.spans@);
        let mut jp: u8 = 1;
        let mut jl: u8 = 1;
        let mut ln: u8 = 0;
        let mut i: usize = 0;
        proof {
            assert(sts.skip(0) =~= sts);
        }
        while i < self.spans.len()
            invariant
                0 <= i <= self.spans@.len(),
                sts == spec_states(self.spans@),
                sts.len() == self.spans@.len(),
                spec_just_ok(sts, 1, 1, 0) == spec_just_ok(sts.skip(i as int), jp, jl, ln),
            decreases self.spans@.len() - i,
        {
            proof {
                assert(sts.skip(i as int).drop_first() =~= sts.skip(i as int + 1));
                assert(sts.skip(i as int)[0] == sts[i as int]);
                assert(sts[i as int] == self.spans@[i as int].state);
            }
            let s = &self.spans[i];
            let sjp = s.state.just_page.code();
            let sjl = s.state.just_line.code();
            let sln = s.state.line_number;
            if sjp < jp || (sjp == jp && sln == ln && sjl < jl) {
                return Err(SyntaxError::TagConflict);
            }
            jp = sjp;
            jl = sjl;
            ln = sln;
            i = i + 1;
        }
        proof {
            assert(sts.skip(sts.len() as int) =~= Seq::<State>::empty());
        }
        Ok(())
    }

    /// Get the page-on time (deciseconds).
    pub fn page_on_time_ds(&self) -> (t: u16)
        ensures
            t == self.state.page_on_time_ds as u16,
    {
        self.state.page_on_time_ds as u16
    }

    /// Get the page-off time (deciseconds).
    pub fn page_off_time_ds(&self) -> (t: u16)
        ensures
            t == self.state.page_off_time_ds as u16,
    {
        self.state.page_off_time_ds as u16
    }

    /// Render a blank page: a raster sized to the text rectangle, filled
    /// with the page background at full opacity.
    pub fn render_blank(&self) -> (res: Result<Raster, SyntaxError>)
        ensures
            match self.state.spec_page_background_rgb() {
                Some(rgb) => res matches Ok(r) && r.width == self.state.text_rectangle.w
                    && r.height == self.state.text_rectangle.h && r.pixels@.len() == 4 * (
                self.state.text_rectangle.w as int) * (self.state.text_rectangle.h as int)
                    && forall|i: int|
                    0 <= i < (self.state.text_rectangle.w as int) * (
                    self.state.text_rectangle.h as int) ==> #[trigger] spec_pixel(r.pixels@, i)
                        == [rgb[0], rgb[1], rgb[2], 255u8],
                None => res matches Err(e) && e@ == ErrModel::UnsupportedTagValue,
            },
    {
        let w = self.state.text_rectangle.w;
        let h = self.state.text_rectangle.h;
        match self.state.page_background_rgb() {
            Ok(clr) => Ok(Raster::new(w, h, [clr[0], clr[1], clr[2], 255])),
            Err(e) => Err(e),
        }
    }

    /// Render the page: the background-filled raster.  Compositing the
    /// graphic and color-rectangle directives, and drawing glyphs on the
    /// computed baselines, is the open extension point of the renderer.
    pub fn render(&self, _fonts: &FontCache) -> (res: Result<Raster, SyntaxError>)
        ensures
            match self.state.spec_page_background_rgb() {
                Some(rgb) => res matches Ok(r) && r.width == self.state.text_rectangle.w
                    && r.height == self.state.text_rectangle.h && r.pixels@.len() == 4 * (
                self.state.text_rectangle.w as int) * (self.state.text_rectangle.h as int)
                    && forall|i: int|
                    0 <= i < (self.state.text_rectangle.w as int) * (
                    self.state.text_rectangle.h as int) ==> #[trigger] spec_pixel(r.pixels@, i)
                        == [rgb[0], rgb[1], rgb[2], 255u8],
                None => res matches Err(e) && e@ == ErrModel::UnsupportedTagValue,
            },
    {
        self.render_blank()
    }

    /// Calculate the vertical extent of the line block selected by `m`
    /// for `span`.
    fn offset_vert(&self, span: &TextSpan, fonts: &FontCache, m: SpanMatch) -> (off: u128)
        ensures
            off as int == spec_offset_vert(self.spans@, span.state, m, *fonts),
            off as int <= 131070 * self.spans@.len(),
    {
        let target: State = span.state;
        let ghost gtarget = target;
        let mut lines: Vec<TextLine> = Vec::new();
        let mut i: usize = 0;
        proof {
            assert(self.spans@.skip(0) =~= self.spans@);
        }
        while i < self.spans.len()
            invariant
                0 <= i <= self.spans@.len(),
                lines@.len() <= i,
                target == gtarget,
                spec_lines(self.spans@, gtarget, m, *fonts, Seq::empty()) == spec_lines(
                    self.spans@.skip(i as int),
                    gtarget,
                    m,
                    *fonts,
                    lines@,
                ),
            decreases self.spans@.len() - i,
        {
            proof {
                assert(self.spans@.skip(i as int).drop_first() =~= self.spans@.skip(
                    i as int + 1,
                ));
                assert(self.spans@.skip(i as int)[0] == self.spans@[i as int]);
            }
            let s = &self.spans[i];
            if span_in_block(m, &s.state, &target) {
                let ln = s.state.line_number as usize;
                let line = TextLine::new(s.height(fonts), s.font_spacing(fonts), s.line_spacing());
                if ln >= lines.len() {
                    lines.push(line);
                } else {
                    let mut cur = lines[ln];
                    cur.combine(&line);
                    lines[ln] = cur;
                }
            }
            i = i + 1;
        }
        proof {
            assert(self.spans@.skip(self.spans@.len() as int) =~= Seq::<TextSpan>::empty());
            assert(lines@ == spec_lines(self.spans@, gtarget, m, *fonts, Seq::empty()));
        }
        let mut height: u128 = 0;
        let mut j: usize = 0;
        while j < lines.len()
            invariant
                0 <= j <= lines@.len(),
                height == spec_sum_heights(lines@.subrange(0, j as int)),
                height <= 65535 * j,
            decreases lines@.len() - j,
        {
            proof {
                assert(lines@.subrange(0, j as int + 1).drop_last() =~= lines@.subrange(
                    0,
                    j as int,
                ));
                assert(lines@.subrange(0, j as int + 1).last() == lines@[j as int]);
            }
            height = height + (lines[j].height as u128);
            j = j + 1;
        }
        let mut spacing: u128 = 0;
        let mut j2: usize = 1;
        while j2 < lines.len()
            invariant
                lines@.len() > 0 ==> 1 <= j2 <= lines@.len(),
                lines@.len() == 0 ==> j2 == 1,
                lines@.len() > 0 ==> spacing == spec_sum_spacing(lines@.subrange(0, j2 as int)),
                lines@.len() == 0 ==> spacing == 0,
                spacing <= 65535 * j2,
            decreases lines@.len() - j2,
        {
            proof {
                assert(lines@.subrange(0, j2 as int + 1).drop_last() =~= lines@.subrange(
                    0,
                    j2 as int,
                ));
                assert(lines@.subrange(0, j2 as int + 1).last() == lines@[j2 as int]);
                assert(lines@.subrange(0, j2 as int + 1)[j2 as int - 1] == lines@[j2 as int - 1]);
            }
            let sp = lines[j2].spacing(&lines[j2 - 1]);
            spacing = spacing + (sp as u128);
            j2 = j2 + 1;
        }
        proof {
            if lines@.len() == 0 {
                assert(spec_sum_heights(lines@) == 0);
                assert(spec_sum_spacing(lines@) == 0);
            } else {
                assert(lines@.subrange(0, lines@.len() as int) =~= lines@);
                if lines@.len() == 1 {
                    assert(spec_sum_spacing(lines@.subrange(0, 1)) == 0);
                }
            }
            lemma_spec_lines_len(self.spans@, gtarget, m, *fonts, Seq::empty());
        }
        height + spacing
    }

    /// Vertical baseline of a span, following the page justification.
    /// `None` when the span's rectangle is degenerate, the page
    /// justification is `Other`, a middle-justified block is taller than
    /// its rectangle, or the result falls outside the pixel range.
    pub open spec fn spec_baseline(self, span: TextSpan, fonts: FontCache) -> Option<int> {
        let r = span.state.text_rectangle;
        if r.y < 1 || r.h < 1 {
            None
        } else {
            match span.state.just_page {
                PageJustification::Other => None,
                PageJustification::Top => Self::spec_in_pixel_range(
                    (r.y - 1) + spec_offset_vert(self.spans@, span.state, SpanMatch::Top, fonts),
                ),
                PageJustification::Middle => {
                    let block = spec_offset_vert(
                        self.spans@,
                        span.state,
                        SpanMatch::Middle,
                        fonts,
                    );
                    if block > r.h {
                        None
                    } else {
                        Self::spec_in_pixel_range(
                            (r.y - 1) + ((r.h - block) / 2) + spec_offset_vert(
                                self.spans@,
                                span.state,
                                SpanMatch::Top,
                                fonts,
                            ),
                        )
                    }
                },
                PageJustification::Bottom => {
                    let base = (r.y - 1) + (r.h - 1) - spec_offset_vert(
                        self.spans@,
                        span.state,
                        SpanMatch::Bottom,
                        fonts,
                    );
                    if base < 0 {
                        None
                    } else {
                        Self::spec_in_pixel_range(base)
                    }
                },
            }
        }
    }

    /// A value accepted as a pixel row.
    pub open spec fn spec_in_pixel_range(v: int) -> Option<int> {
        if 0 <= v < 65536 {
            Some(v)
        } else {
            None
        }
    }

    /// Get the baseline of a text span, when it has one.
    pub fn baseline(&self, span: &TextSpan, fonts: &FontCache) -> (res: Option<u16>)
        ensures
            match self.spec_baseline(*span, *fonts) {
                Some(v) => res == Some(v as u16),
                None => res is None,
            },
    {
        proof {
            assert(self.spans.len() == self.spans@.len());
        }
        let r = span.state.text_rectangle;
        if r.y < 1 || r.h < 1 {
            return None;
        }
        match span.state.just_page {
            PageJustification::Other => None,
            PageJustification::Top => {
                let off = self.offset_vert(span, fonts, SpanMatch::Top);
                let v: u128 = (r.y as u128) - 1 + off;
                if v <= 65535 {
                    Some(v as u16)
                } else {
                    None
                }
            },
            PageJustification::Middle => {
                let block = self.offset_vert(span, fonts, SpanMatch::Middle);
                if block > r.h as u128 {
                    return None;
                }
                let off = self.offset_vert(span, fonts, SpanMatch::Top);
                let v: u128 = (r.y as u128) - 1 + ((r.h as u128 - block) / 2) + off;
                if v <= 65535 {
                    Some(v as u16)
                } else {
                    None
                }
            },
            PageJustification::Bottom => {
                let off = self.offset_vert(span, fonts, SpanMatch::Bottom);
                let edge: u128 = (r.y as u128) - 1 + (r.h as u128) - 1;
                if off > edge {
                    return None;
                }
                let v: u128 = edge - off;
                if v <= 65535 {
                    Some(v as u16)
                } else {
                    None
                }
            },
        }
    }
}

} // verus!
