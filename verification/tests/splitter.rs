use honeybee::color::{Color, ColorScheme};
use honeybee::splitter::PageSplitter;
use honeybee::state::State;
use honeybee::values::{LineJustification, PageJustification, Rectangle, SyntaxError, Value};

fn make_full_matrix() -> State {
    State::new(
        ColorScheme::Color24Bit,
        0,
        0,
        Color::Legacy(1),
        Color::Legacy(0),
        20,
        0,
        Rectangle::new(1, 1, 60, 30),
        PageJustification::Top,
        LineJustification::Left,
        (1, None),
    )
}

fn make_char_matrix() -> State {
    State::new(
        ColorScheme::Monochrome1Bit,
        5,
        7,
        Color::Legacy(1),
        Color::Legacy(0),
        20,
        0,
        Rectangle::new(1, 1, 100, 21),
        PageJustification::Top,
        LineJustification::Left,
        (1, None),
    )
}

#[test]
fn empty_input_single_default_page() {
    let rs = make_full_matrix();
    let mut pages = PageSplitter::new(rs, "");
    let p = pages.next().unwrap().unwrap();
    assert!(p.spans.is_empty());
    assert!(p.values.is_empty());
    assert!(p.state.page_background == Color::Legacy(0));
    assert!(p.state.page_on_time_ds == 20);
    assert!(p.state.page_off_time_ds == 0);
    assert!(p.state.text_rectangle == Rectangle::new(1, 1, 60, 30));
    assert!(pages.next().is_none());
}

#[test]
fn three_pages_with_retroactive_page_fields() {
    let rs = make_full_matrix();
    let mut pages = PageSplitter::new(rs, "1[np]2[pt30o5][pb7][np]3");
    let p1 = pages.next().unwrap().unwrap();
    assert_eq!(p1.spans.len(), 1);
    assert_eq!(p1.spans[0].text, "1");
    assert!(p1.state.page_background == Color::Legacy(0));
    assert_eq!(p1.page_on_time_ds(), 20);
    assert_eq!(p1.page_off_time_ds(), 0);
    // the timing and background tags stand after the text, and still
    // govern the whole second page
    let p2 = pages.next().unwrap().unwrap();
    assert_eq!(p2.spans.len(), 1);
    assert_eq!(p2.spans[0].text, "2");
    assert!(p2.state.page_background == Color::Legacy(7));
    assert_eq!(p2.page_on_time_ds(), 30);
    assert_eq!(p2.page_off_time_ds(), 5);
    // background and timing persist into the third page
    let p3 = pages.next().unwrap().unwrap();
    assert_eq!(p3.spans.len(), 1);
    assert_eq!(p3.spans[0].text, "3");
    assert!(p3.state.page_background == Color::Legacy(7));
    assert_eq!(p3.page_on_time_ds(), 30);
    assert!(pages.next().is_none());
}

#[test]
fn aligned_text_rectangle_reaches_spans() {
    let rs = make_char_matrix();
    let mut pages = PageSplitter::new(rs, "[tr1,1,50,14]A");
    let p = pages.next().unwrap().unwrap();
    assert_eq!(p.spans.len(), 1);
    assert!(p.spans[0].state.text_rectangle == Rectangle::new(1, 1, 50, 14));
    // the page-level state keeps the sign's default rectangle
    assert!(p.state.text_rectangle == Rectangle::new(1, 1, 100, 21));
}

#[test]
fn unsupported_tags_and_values() {
    let rs = make_full_matrix();
    let mut pages = PageSplitter::new(rs, "A[hc1]B");
    match pages.next() {
        Some(Err(SyntaxError::UnsupportedTag(name))) => assert_eq!(name, "hc1"),
        _ => panic!("expected an unsupported tag"),
    }
    assert!(pages.next().is_none());
    // character spacing is disallowed on character-matrix signs
    let cm = make_char_matrix();
    let mut pages = PageSplitter::new(cm, "[sc2]A");
    match pages.next() {
        Some(Err(SyntaxError::UnsupportedTag(name))) => assert_eq!(name, "sc"),
        _ => panic!("expected an unsupported tag"),
    }
    // the "other" page justification is never accepted
    let mut pages = PageSplitter::new(rs, "[jp1]");
    assert!(matches!(
        pages.next(),
        Some(Err(SyntaxError::UnsupportedTagValue))
    ));
    // line justifications full and other are never accepted
    let mut pages = PageSplitter::new(rs, "[jl5]");
    assert!(matches!(
        pages.next(),
        Some(Err(SyntaxError::UnsupportedTagValue))
    ));
    // an explicit new-line spacing needs a full-matrix sign
    let mut pages = PageSplitter::new(cm, "[nl4]");
    assert!(matches!(
        pages.next(),
        Some(Err(SyntaxError::UnsupportedTagValue))
    ));
}

#[test]
fn blank_lines_become_empty_spans() {
    let rs = make_full_matrix();
    let p = PageSplitter::new(rs, "[nl][nl]").next().unwrap().unwrap();
    assert_eq!(p.spans.len(), 2);
    assert_eq!(p.spans[0].text, "");
    assert_eq!(p.spans[0].state.line_number, 1);
    assert_eq!(p.spans[1].text, "");
    assert_eq!(p.spans[1].state.line_number, 2);
    // a line with text leaves no extra blank span
    let p = PageSplitter::new(rs, "A[nl]B").next().unwrap().unwrap();
    assert_eq!(p.spans.len(), 2);
    assert_eq!(p.spans[0].text, "A");
    assert_eq!(p.spans[1].text, "B");
}

#[test]
fn bracket_escapes_in_text() {
    let rs = make_full_matrix();
    let p = PageSplitter::new(rs, "a[[b]]c").next().unwrap().unwrap();
    assert_eq!(p.spans.len(), 1);
    assert_eq!(p.spans[0].text, "a[b]c");
}

#[test]
fn graphics_and_color_rectangles_collect() {
    let rs = make_full_matrix();
    let p = PageSplitter::new(rs, "[g2,10,20][cr1,1,10,10,5]A")
        .next()
        .unwrap()
        .unwrap();
    assert_eq!(p.values.len(), 2);
    assert!(p.values[0] == Value::Graphic(2, Some((10, 20, None))));
    assert!(
        p.values[1] == Value::ColorRectangle(Rectangle::new(1, 1, 10, 10), Color::Legacy(5))
    );
    assert_eq!(p.spans.len(), 1);
}

#[test]
fn page_time_forms() {
    let rs = make_full_matrix();
    let p = PageSplitter::new(rs, "[pt5]").next().unwrap().unwrap();
    assert_eq!(p.page_on_time_ds(), 5);
    assert_eq!(p.page_off_time_ds(), 0);
    let p = PageSplitter::new(rs, "[pto3]").next().unwrap().unwrap();
    assert_eq!(p.page_on_time_ds(), 20);
    assert_eq!(p.page_off_time_ds(), 3);
    let p = PageSplitter::new(rs, "[pt]").next().unwrap().unwrap();
    assert_eq!(p.page_on_time_ds(), 20);
    assert_eq!(p.page_off_time_ds(), 0);
}

#[test]
fn font_tag_sets_and_resets() {
    let rs = make_full_matrix();
    let p = PageSplitter::new(rs, "[fo3,1234]A[np]B").next().unwrap().unwrap();
    assert!(p.spans[0].state.font == (3, Some(0x1234)));
    let p = PageSplitter::new(rs, "[fo2]A[fo]B").next().unwrap().unwrap();
    assert!(p.spans[0].state.font == (2, None));
    assert!(p.spans[1].state.font == (1, None));
}

#[test]
fn splitting_twice_is_identical() {
    let rs = make_full_matrix();
    let ms = "1[pb5][np][jl3]2[nl]3[pt9o1]";
    let mut a = PageSplitter::new(rs, ms);
    let mut b = PageSplitter::new(rs, ms);
    loop {
        match (a.next(), b.next()) {
            (None, None) => break,
            (Some(Ok(pa)), Some(Ok(pb))) => {
                assert!(pa.state.page_background == pb.state.page_background);
                assert_eq!(pa.page_on_time_ds(), pb.page_on_time_ds());
                assert_eq!(pa.page_off_time_ds(), pb.page_off_time_ds());
                assert_eq!(pa.spans.len(), pb.spans.len());
                for (sa, sb) in pa.spans.iter().zip(pb.spans.iter()) {
                    assert_eq!(sa.text, sb.text);
                    assert_eq!(sa.state.line_number, sb.state.line_number);
                }
                assert_eq!(pa.values.len(), pb.values.len());
            },
            _ => panic!("the two runs disagree"),
        }
    }
}

#[test]
fn malformed_markup_errors() {
    let rs = make_full_matrix();
    // an unterminated tag
    let mut pages = PageSplitter::new(rs, "A[np");
    assert!(matches!(
        pages.next(),
        Some(Err(SyntaxError::UnsupportedTag(_)))
    ));
    // a lone closing bracket
    let mut pages = PageSplitter::new(rs, "A]B");
    assert!(matches!(
        pages.next(),
        Some(Err(SyntaxError::UnsupportedTagValue))
    ));
    // a page time out of range
    let mut pages = PageSplitter::new(rs, "[pt999999]");
    assert!(matches!(
        pages.next(),
        Some(Err(SyntaxError::UnsupportedTagValue))
    ));
    // pages before a bad tag still come out, and the error ends the run
    let mut pages = PageSplitter::new(rs, "1[np]2[zz]");
    assert!(pages.next().unwrap().is_ok());
    match pages.next() {
        Some(Err(SyntaxError::UnsupportedTag(name))) => assert_eq!(name, "zz"),
        _ => panic!("expected an unsupported tag"),
    }
    assert!(pages.next().is_none());
}

#[test]
fn rgb_color_arguments() {
    let rs = make_full_matrix();
    let p = PageSplitter::new(rs, "[pb20,30,40]A").next().unwrap().unwrap();
    assert!(p.state.page_background == Color::RGB(20, 30, 40));
    let p = PageSplitter::new(rs, "[cf5]A").next().unwrap().unwrap();
    assert!(p.spans[0].state.color_foreground == Color::Legacy(5));
}
