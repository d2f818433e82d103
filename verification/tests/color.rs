use honeybee::color::{Color, ColorScheme, scale_u8};
use honeybee::state::State;
use honeybee::values::{LineJustification, PageJustification, Rectangle, SyntaxError};

fn make_state(scheme: ColorScheme, fg: Color, bg: Color) -> State {
    State::new(
        scheme,
        0,
        0,
        fg,
        bg,
        20,
        0,
        Rectangle::new(1, 1, 60, 30),
        PageJustification::Top,
        LineJustification::Left,
        (1, None),
    )
}

#[test]
fn scale_fixed_point() {
    assert_eq!(scale_u8(255, 128), 128);
    assert_eq!(scale_u8(0, 0), 0);
    assert_eq!(scale_u8(0, 37), 0);
    assert_eq!(scale_u8(0, 255), 0);
    assert_eq!(scale_u8(255, 255), 255);
    assert_eq!(scale_u8(255, 0), 0);
    assert_eq!(scale_u8(128, 128), 64);
    // the exact formula
    assert_eq!(scale_u8(200, 100), ((200u32 * 100 + 255) >> 8) as u8);
}

#[test]
fn resolve_monochrome_1_bit() {
    let ds = make_state(
        ColorScheme::Monochrome1Bit,
        Color::Legacy(1),
        Color::Legacy(0),
    );
    assert_eq!(ds.get_color(Color::Legacy(0), &ds), Ok(Color::Legacy(0)));
    assert_eq!(ds.get_color(Color::Legacy(1), &ds), Ok(Color::Legacy(1)));
    assert!(matches!(
        ds.get_color(Color::Legacy(2), &ds),
        Err(SyntaxError::UnsupportedTagValue)
    ));
    assert!(matches!(
        ds.get_color(Color::RGB(1, 2, 3), &ds),
        Err(SyntaxError::UnsupportedTagValue)
    ));
}

#[test]
fn resolve_monochrome_8_bit() {
    let ds = make_state(
        ColorScheme::Monochrome8Bit,
        Color::Legacy(255),
        Color::Legacy(0),
    );
    // the default foreground scales per component: (255*128 + 255) >> 8
    assert_eq!(
        ds.get_color(Color::Legacy(128), &ds),
        Ok(Color::RGB(128, 128, 128))
    );
    assert_eq!(ds.get_color(Color::Legacy(0), &ds), Ok(Color::RGB(0, 0, 0)));
    assert!(matches!(
        ds.get_color(Color::RGB(9, 9, 9), &ds),
        Err(SyntaxError::UnsupportedTagValue)
    ));
}

#[test]
fn resolve_classic() {
    let ds = make_state(ColorScheme::ColorClassic, Color::Legacy(1), Color::Legacy(0));
    for v in 0..=9u8 {
        assert_eq!(ds.get_color(Color::Legacy(v), &ds), Ok(Color::Legacy(v)));
    }
    assert!(matches!(
        ds.get_color(Color::Legacy(10), &ds),
        Err(SyntaxError::UnsupportedTagValue)
    ));
    assert!(matches!(
        ds.get_color(Color::RGB(1, 2, 3), &ds),
        Err(SyntaxError::UnsupportedTagValue)
    ));
}

#[test]
fn resolve_color_24_bit() {
    let ds = make_state(ColorScheme::Color24Bit, Color::Legacy(1), Color::Legacy(0));
    assert_eq!(
        ds.get_color(Color::RGB(12, 34, 56), &ds),
        Ok(Color::RGB(12, 34, 56))
    );
    assert_eq!(ds.get_color(Color::Legacy(9), &ds), Ok(Color::Legacy(9)));
    assert!(matches!(
        ds.get_color(Color::Legacy(10), &ds),
        Err(SyntaxError::UnsupportedTagValue)
    ));
}

#[test]
fn classic_palette_rgb() {
    let ds = make_state(ColorScheme::ColorClassic, Color::Legacy(1), Color::Legacy(0));
    assert_eq!(ds.color_rgb(Color::Legacy(0)), Ok([0, 0, 0]));
    assert_eq!(ds.color_rgb(Color::Legacy(1)), Ok([255, 0, 0]));
    assert_eq!(ds.color_rgb(Color::Legacy(5)), Ok([0, 0, 255]));
    assert_eq!(ds.color_rgb(Color::Legacy(8)), Ok([255, 165, 0]));
    assert_eq!(ds.color_rgb(Color::Legacy(9)), Ok([255, 208, 0]));
    assert!(matches!(
        ds.color_rgb(Color::Legacy(200)),
        Err(SyntaxError::UnsupportedTagValue)
    ));
    let m1 = make_state(
        ColorScheme::Monochrome1Bit,
        Color::Legacy(1),
        Color::Legacy(0),
    );
    assert_eq!(m1.color_rgb(Color::Legacy(0)), Ok([0, 0, 0]));
    assert_eq!(m1.color_rgb(Color::Legacy(1)), Ok([255, 255, 255]));
    let m8 = make_state(
        ColorScheme::Monochrome8Bit,
        Color::Legacy(255),
        Color::Legacy(0),
    );
    assert_eq!(m8.color_rgb(Color::Legacy(77)), Ok([77, 77, 77]));
}
