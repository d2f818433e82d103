use honeybee::color::{Color, ColorScheme};
use honeybee::splitter::PageSplitter;
use honeybee::state::State;
use honeybee::values::{LineJustification, PageJustification, Rectangle, SyntaxError};

fn make_full_matrix() -> State {
    State::new(
        ColorScheme::Color24Bit,
        0,
        0,
        Color::Legacy(1),
        Color::Legacy(0),
        20,
        0,
        Rectangle::new(1, 1, 60, 30),
        PageJustification::Top,
        LineJustification::Left,
        (1, None),
    )
}

fn count_pages(mut ps: PageSplitter) -> usize {
    let mut n: usize = 0;
    while let Some(_) = ps.next() {
        n += 1;
    }
    n
}

#[test]
fn page_count() {
    let rs = make_full_matrix();
    assert!(count_pages(PageSplitter::new(rs, "")) == 1);
    assert!(count_pages(PageSplitter::new(rs, "1")) == 1);
    assert!(count_pages(PageSplitter::new(rs, "[np]")) == 2);
    assert!(count_pages(PageSplitter::new(rs, "1[NP]")) == 2);
    assert!(count_pages(PageSplitter::new(rs, "1[Np]2")) == 2);
    assert!(count_pages(PageSplitter::new(rs, "1[np]2[nP]")) == 3);
}

#[test]
fn page_full_matrix() {
    let rs = make_full_matrix();
    let mut pages = PageSplitter::new(rs, "");
    let p = pages.next().unwrap().unwrap();
    let rs = p.state;
    assert!(rs.color_scheme == ColorScheme::Color24Bit);
    assert!(rs.color_foreground == Color::Legacy(1));
    assert!(rs.page_background == Color::Legacy(0));
    assert!(rs.page_on_time_ds == 20);
    assert!(rs.page_off_time_ds == 0);
    assert!(rs.text_rectangle == Rectangle::new(1, 1, 60, 30));
    assert!(rs.just_page == PageJustification::Top);
    assert!(rs.just_line == LineJustification::Left);
    assert!(rs.line_spacing == None);
    assert!(rs.char_spacing == None);
    assert!(rs.char_width == 0);
    assert!(rs.char_height == 0);
    assert!(rs.font == (1, None));
    let mut pages = PageSplitter::new(
        rs,
        "[pt10o2][cb9][pb5][cf3][jp3]\
            [jl4][tr1,1,10,10][nl4][fo3,1234][sc2][np][pb][pt][cb][/sc]",
    );
    let p = pages.next().unwrap().unwrap();
    let rs = p.state;
    assert!(rs.color_foreground == Color::Legacy(1));
    assert!(rs.page_background == Color::Legacy(5));
    assert!(rs.page_on_time_ds == 10);
    assert!(rs.page_off_time_ds == 2);
    assert!(rs.text_rectangle == Rectangle::new(1, 1, 60, 30));
    assert!(rs.just_page == PageJustification::Top);
    assert!(rs.just_line == LineJustification::Left);
    assert!(rs.line_spacing == None);
    assert!(rs.char_spacing == None);
    assert!(rs.font == (1, None));
    let p = pages.next().unwrap().unwrap();
    let rs = p.state;
    assert!(rs.color_foreground == Color::Legacy(3));
    assert!(rs.page_background == Color::Legacy(0));
    assert!(rs.page_on_time_ds == 20);
    assert!(rs.page_off_time_ds == 0);
    assert!(rs.text_rectangle == Rectangle::new(1, 1, 60, 30));
    assert!(rs.just_page == PageJustification::Middle);
    assert!(rs.just_line == LineJustification::Right);
    assert!(rs.line_spacing == None);
    assert!(rs.char_spacing == Some(2));
    assert!(rs.font == (3, Some(0x1234)));
}

fn make_char_matrix() -> State {
    State::new(
        ColorScheme::Monochrome1Bit,
        5,
        7,
        Color::Legacy(1),
        Color::Legacy(0),
        20,
        0,
        Rectangle::new(1, 1, 100, 21),
        PageJustification::Top,
        LineJustification::Left,
        (1, None),
    )
}

#[test]
fn page_char_matrix() {
    let rs = make_char_matrix();
    let mut pages = PageSplitter::new(rs, "[tr1,1,12,12]");
    if let Some(Err(SyntaxError::UnsupportedTagValue)) = pages.next() {
        assert!(true);
    } else {
        assert!(false)
    }
    let mut pages = PageSplitter::new(rs, "[tr1,1,50,12]");
    if let Some(Err(SyntaxError::UnsupportedTagValue)) = pages.next() {
        assert!(true);
    } else {
        assert!(false)
    }
    let mut pages = PageSplitter::new(rs, "[tr1,1,12,14]");
    if let Some(Err(SyntaxError::UnsupportedTagValue)) = pages.next() {
        assert!(true);
    } else {
        assert!(false)
    }
    let mut pages = PageSplitter::new(rs, "[tr1,1,50,14]");
    if let Some(Ok(_)) = pages.next() {
        assert!(true);
    } else {
        assert!(false)
    }
    let mut pages = PageSplitter::new(rs, "[pb9]");
    if let Some(Err(SyntaxError::UnsupportedTagValue)) = pages.next() {
        assert!(true);
    } else {
        assert!(false)
    }
}
