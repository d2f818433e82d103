use honeybee::color::{Color, ColorScheme};
use honeybee::layout::{FontCache, FontInfo, PageRenderer, TextLine, TextSpan};
use honeybee::splitter::PageSplitter;
use honeybee::state::State;
use honeybee::values::{LineJustification, PageJustification, Rectangle, SyntaxError};

fn make_full_matrix() -> State {
    State::new(
        ColorScheme::Color24Bit,
        0,
        0,
        Color::Legacy(1),
        Color::Legacy(0),
        20,
        0,
        Rectangle::new(1, 1, 60, 30),
        PageJustification::Top,
        LineJustification::Left,
        (1, None),
    )
}

fn make_fonts() -> FontCache {
    let mut fonts = FontCache::new();
    fonts.insert(1, FontInfo { height: 7, line_spacing: 3 });
    fonts
}

#[test]
fn spacing_averages_rounding_up() {
    // no override: the ceiling of the mean of the font line spacings
    let a = TextLine::new(7, 3, None);
    let b = TextLine::new(7, 4, None);
    assert_eq!(a.spacing(&b), 4);
    assert_eq!(b.spacing(&a), 4);
    let c = TextLine::new(7, 4, None);
    assert_eq!(b.spacing(&c), 4);
    let d = TextLine::new(7, 0, None);
    assert_eq!(a.spacing(&d), 2);
    // an explicit override from either neighbor wins
    let e = TextLine::new(7, 3, Some(9));
    assert_eq!(e.spacing(&b), 9);
    assert_eq!(b.spacing(&e), 9);
}

#[test]
fn line_combine_takes_maxima() {
    let mut a = TextLine::new(7, 3, None);
    let b = TextLine::new(9, 2, Some(5));
    a.combine(&b);
    assert_eq!(a.height, 9);
    assert_eq!(a.font_spacing, 3);
    assert_eq!(a.line_spacing, Some(5));
    let c = TextLine::new(1, 1, Some(8));
    a.combine(&c);
    assert_eq!(a.line_spacing, Some(5));
}

#[test]
fn justification_conflict() {
    let rs = make_full_matrix();
    // a left-justified span after a right-justified one on the same line
    let mut pages = PageSplitter::new(rs, "[jl4]A[jl2]B");
    if let Some(Err(SyntaxError::TagConflict)) = pages.next() {
        assert!(true);
    } else {
        assert!(false)
    }
    // non-decreasing justifications pass
    let mut pages = PageSplitter::new(rs, "[jl2]A[jl3]B[jl4]C");
    assert!(pages.next().unwrap().is_ok());
    // a top-justified span after a bottom-justified one
    let mut pages = PageSplitter::new(rs, "[jp4]A[jp2]B");
    if let Some(Err(SyntaxError::TagConflict)) = pages.next() {
        assert!(true);
    } else {
        assert!(false)
    }
    // a new line resets the line-justification comparison
    let mut pages = PageSplitter::new(rs, "[jl4]A[nl][jl2]B");
    assert!(pages.next().unwrap().is_ok());
}

#[test]
fn baseline_top_bottom_middle() {
    let rs = make_full_matrix();
    let fonts = make_fonts();
    let p = PageSplitter::new(rs, "A").next().unwrap().unwrap();
    assert_eq!(p.baseline(&p.spans[0], &fonts), Some(7));
    let p = PageSplitter::new(rs, "A[nl]B").next().unwrap().unwrap();
    assert_eq!(p.baseline(&p.spans[0], &fonts), Some(7));
    // 7 + ceil((3+3)/2) + 7
    assert_eq!(p.baseline(&p.spans[1], &fonts), Some(17));
    let p = PageSplitter::new(rs, "[jp4]A").next().unwrap().unwrap();
    assert_eq!(p.baseline(&p.spans[0], &fonts), Some(29));
    // block of height 7 centered in 30 rows starts at row 11
    let p = PageSplitter::new(rs, "[jp3]A").next().unwrap().unwrap();
    assert_eq!(p.baseline(&p.spans[0], &fonts), Some(18));
}

#[test]
fn baseline_unknown_font_defaults() {
    let rs = make_full_matrix();
    let fonts = FontCache::new();
    let p = PageSplitter::new(rs, "A").next().unwrap().unwrap();
    let span = &p.spans[0];
    assert_eq!(span.height(&fonts), 7);
    assert_eq!(span.font_spacing(&fonts), 0);
    assert_eq!(p.baseline(span, &fonts), Some(7));
}

#[test]
fn render_blank_fills_background() {
    let rs = make_full_matrix();
    let mut pages = PageSplitter::new(rs, "[pb5]");
    let p = pages.next().unwrap().unwrap();
    let raster = p.render_blank().unwrap();
    assert_eq!(raster.width, 60);
    assert_eq!(raster.height, 30);
    assert_eq!(raster.pixels.len(), 4 * 60 * 30);
    // classic 5 is blue, at full opacity
    assert_eq!(&raster.pixels[0..4], &[0, 0, 255, 255]);
    assert_eq!(&raster.pixels[7196..7200], &[0, 0, 255, 255]);
    let fonts = make_fonts();
    let r2 = p.render(&fonts).unwrap();
    assert_eq!(r2.pixels, raster.pixels);
}

#[test]
fn page_timing_accessors() {
    let rs = make_full_matrix();
    let p = PageSplitter::new(rs, "[pt10o2]").next().unwrap().unwrap();
    assert_eq!(p.page_on_time_ds(), 10);
    assert_eq!(p.page_off_time_ds(), 2);
}

#[test]
fn check_justification_direct() {
    let rs = make_full_matrix();
    let mut right = rs;
    right.just_line = LineJustification::Right;
    let mut left = rs;
    left.just_line = LineJustification::Left;
    let spans = vec![
        TextSpan::new(right, String::from("A")),
        TextSpan::new(left, String::from("B")),
    ];
    let page = PageRenderer::new(rs, Vec::new(), spans);
    assert!(matches!(
        page.check_justification(),
        Err(SyntaxError::TagConflict)
    ));
    let spans = vec![
        TextSpan::new(left, String::from("A")),
        TextSpan::new(right, String::from("B")),
    ];
    let page = PageRenderer::new(rs, Vec::new(), spans);
    assert!(page.check_justification().is_ok());
}
