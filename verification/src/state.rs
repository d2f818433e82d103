//! The presentation state in effect at a point in a MULTI string, and the
//! pure transition applied for each tag value.

use vstd::prelude::*;
use crate::color::{Color, ColorScheme, scale_u8, spec_scale_u8, classic_rgb, spec_classic_rgb};
use crate::values::{ErrModel, LineJustification, PageJustification, Rectangle, SyntaxError, Value};

verus! {

/// Attribute snapshot of a sign at one point in the markup: geometry,
/// colors, justification, font, spacing and timing.
#[derive(Clone, Copy, Debug)]
pub struct State {
    pub color_scheme: ColorScheme,
    /// Fixed character cell width in pixels; 0 on proportional signs.
    pub char_width: u8,
    /// Fixed character cell height in pixels; 0 on full-height signs.
    pub char_height: u8,
    pub color_foreground: Color,
    pub page_background: Color,
    /// Page on time in deciseconds.
    pub page_on_time_ds: u8,
    /// Page off time in deciseconds.
    pub page_off_time_ds: u8,
    pub text_rectangle: Rectangle,
    pub just_page: PageJustification,
    pub just_line: LineJustification,
    /// Current line number, reset to 0 by a new page or a page
    /// justification change.
    pub line_number: u8,
    /// Explicit line spacing, when a new-line tag set one.
    pub line_spacing: Option<u8>,
    /// Explicit character spacing, when a spacing tag set one.
    pub char_spacing: Option<u8>,
    /// Active font: id, and optional version.
    pub font: (u8, Option<u16>),
}

impl State {
    /// Create a new render state.
    pub fn new(
        color_scheme: ColorScheme,
        char_width: u8,
        char_height: u8,
        color_foreground: Color,
        page_background: Color,
        page_on_time_ds: u8,
        page_off_time_ds: u8,
        text_rectangle: Rectangle,
        just_page: PageJustification,
        just_line: LineJustification,
        font: (u8, Option<u16>),
    ) -> (s: State)
        ensures
            s == (State {
                color_scheme,
                char_width,
                char_height,
                color_foreground,
                page_background,
                page_on_time_ds,
                page_off_time_ds,
                text_rectangle,
                just_page,
                just_line,
                line_number: 0u8,
                line_spacing: None::<u8>,
                char_spacing: None::<u8>,
                font,
            }),
    {
        State {
            color_scheme,
            char_width,
            char_height,
            color_foreground,
            page_background,
            page_on_time_ds,
            page_off_time_ds,
            text_rectangle,
            just_page,
            just_line,
            line_number: 0,
            line_spacing: None,
            char_spacing: None,
            font,
        }
    }

    /// The sign has a fixed character cell width.
    pub open spec fn spec_is_char_matrix(self) -> bool {
        self.char_width > 0
    }

    /// Check if the sign is a character-matrix.
    pub fn is_char_matrix(&self) -> (r: bool)
        ensures
            r == self.spec_is_char_matrix(),
    {
        self.char_width > 0
    }

    /// The sign has no fixed character cell in either dimension.
    pub open spec fn spec_is_full_matrix(self) -> bool {
        self.char_width == 0 && self.char_height == 0
    }

    /// Check if the sign is a full-matrix.
    pub fn is_full_matrix(&self) -> (r: bool)
        ensures
            r == self.spec_is_full_matrix(),
    {
        self.char_width == 0 && self.char_height == 0
    }

    /// Get the pixel width of the text rectangle.
    pub fn width(&self) -> (w: u16)
        ensures
            w == self.text_rectangle.w,
    {
        self.text_rectangle.w
    }

    /// Get the pixel height of the text rectangle.
    pub fn height(&self) -> (h: u16)
        ensures
            h == self.text_rectangle.h,
    {
        self.text_rectangle.h
    }

    /// Character cell width used for grid checks (1 on proportional signs).
    pub open spec fn spec_char_width(self) -> u16 {
        if self.spec_is_char_matrix() {
            self.char_width as u16
        } else {
            1
        }
    }

    /// Get the character width (1 for variable width).
    pub fn char_width_px(&self) -> (w: u16)
        ensures
            w == self.spec_char_width(),
    {
        if self.is_char_matrix() {
            self.char_width as u16
        } else {
            1
        }
    }

    /// Character cell height used for grid checks (1 on variable-height
    /// signs).
    pub open spec fn spec_char_height(self) -> u16 {
        if self.char_height > 0 {
            self.char_height as u16
        } else {
            1
        }
    }

    /// Get the character height (1 for variable height).
    pub fn char_height_px(&self) -> (h: u16)
        ensures
            h == self.spec_char_height(),
    {
        if self.char_height > 0 {
            self.char_height as u16
        } else {
            1
        }
    }

    /// Color legal for the scheme, resolved against the sign defaults;
    /// `None` when the scheme rejects the value.
    pub open spec fn spec_get_color(self, c: Color, ds: State) -> Option<Color> {
        match self.color_scheme {
            ColorScheme::Monochrome1Bit => match c {
                Color::Legacy(0u8) => Some(ds.page_background),
                Color::Legacy(1u8) => Some(ds.color_foreground),
                _ => None,
            },
            ColorScheme::Monochrome8Bit => match c {
                Color::Legacy(v) => match self.spec_color_rgb(ds.color_foreground) {
                    Some(rgb) => Some(
                        Color::RGB(
                            spec_scale_u8(rgb[0], v),
                            spec_scale_u8(rgb[1], v),
                            spec_scale_u8(rgb[2], v),
                        ),
                    ),
                    None => None,
                },
                _ => None,
            },
            ColorScheme::ColorClassic => match c {
                Color::Legacy(v) => if v <= 9 {
                    Some(c)
                } else {
                    None
                },
                _ => None,
            },
            ColorScheme::Color24Bit => match c {
                Color::RGB(_, _, _) => Some(c),
                Color::Legacy(v) => if v <= 9 {
                    Some(c)
                } else {
                    None
                },
            },
        }
    }

    /// Get a color appropriate for the color scheme, resolved against the
    /// default state `ds`.  Exactly the scheme rule's color, or
    /// `UnsupportedTagValue`.
    pub fn get_color(&self, c: Color, ds: &State) -> (r: Result<Color, SyntaxError>)
        ensures
            match self.spec_get_color(c, *ds) {
                Some(c2) => r matches Ok(c3) && c3 == c2,
                None => r matches Err(e) && e@ == ErrModel::UnsupportedTagValue,
            },
    {
        match self.color_scheme {
            ColorScheme::Monochrome1Bit => match c {
                Color::Legacy(0u8) => Ok(ds.page_background),
                Color::Legacy(1u8) => Ok(ds.color_foreground),
                _ => Err(SyntaxError::UnsupportedTagValue),
            },
            ColorScheme::Monochrome8Bit => match c {
                Color::Legacy(v) => match self.color_rgb(ds.color_foreground) {
                    Ok(rgb) => Ok(
                        Color::RGB(
                            scale_u8(rgb[0], v),
                            scale_u8(rgb[1], v),
                            scale_u8(rgb[2], v),
                        ),
                    ),
                    Err(e) => Err(e),
                },
                _ => Err(SyntaxError::UnsupportedTagValue),
            },
            ColorScheme::ColorClassic => match c {
                Color::Legacy(v) => if v <= 9 {
                    Ok(c)
                } else {
                    Err(SyntaxError::UnsupportedTagValue)
                },
                _ => Err(SyntaxError::UnsupportedTagValue),
            },
            ColorScheme::Color24Bit => match c {
                Color::RGB(_, _, _) => Ok(c),
                Color::Legacy(v) => if v <= 9 {
                    Ok(c)
                } else {
                    Err(SyntaxError::UnsupportedTagValue)
                },
            },
        }
    }

    /// RGB triplet of an already-resolved color under this state's scheme;
    /// `None` when the legacy index has no RGB image.
    pub open spec fn spec_color_rgb(self, c: Color) -> Option<[u8; 3]> {
        match c {
            Color::RGB(r, g, b) => Some([r, g, b]),
            Color::Legacy(v) => match self.color_scheme {
                ColorScheme::Monochrome1Bit => if v == 0 {
                    Some([0u8, 0u8, 0u8])
                } else if v == 1 {
                    Some([255u8, 255u8, 255u8])
                } else {
                    None
                },
                ColorScheme::Monochrome8Bit => Some([v, v, v]),
                ColorScheme::ColorClassic | ColorScheme::Color24Bit => spec_classic_rgb(v),
            },
        }
    }

    /// Get the RGB triplet for a color under this state's scheme.
    pub fn color_rgb(&self, c: Color) -> (r: Result<[u8; 3], SyntaxError>)
        ensures
            match self.spec_color_rgb(c) {
                Some(rgb) => r matches Ok(rgb2) && rgb2 == rgb,
                None => r matches Err(e) && e@ == ErrModel::UnsupportedTagValue,
            },
    {
        match c {
            Color::RGB(r, g, b) => Ok([r, g, b]),
            Color::Legacy(v) => match self.color_scheme {
                ColorScheme::Monochrome1Bit => if v == 0 {
                    Ok([0, 0, 0])
                } else if v == 1 {
                    Ok([255, 255, 255])
                } else {
                    Err(SyntaxError::UnsupportedTagValue)
                },
                ColorScheme::Monochrome8Bit => Ok([v, v, v]),
                ColorScheme::ColorClassic | ColorScheme::Color24Bit => match classic_rgb(v) {
                    Some(rgb) => Ok(rgb),
                    None => Err(SyntaxError::UnsupportedTagValue),
                },
            },
        }
    }

    /// RGB triplet of the page background; `None` when the background has
    /// no RGB image under the scheme.
    pub open spec fn spec_page_background_rgb(self) -> Option<[u8; 3]> {
        self.spec_color_rgb(self.page_background)
    }

    /// Get the page background color as an RGB triplet.
    pub fn page_background_rgb(&self) -> (r: Result<[u8; 3], SyntaxError>)
        ensures
            match self.spec_page_background_rgb() {
                Some(rgb) => r matches Ok(rgb2) && rgb2 == rgb,
                None => r matches Err(e) && e@ == ErrModel::UnsupportedTagValue,
            },
    {
        self.color_rgb(self.page_background)
    }

    /// Result of a text rectangle tag: the rectangle must lie in the
    /// sign's default text rectangle, on the character-cell grid where the
    /// cells are fixed, with a 1-based corner.
    pub open spec fn spec_update_text_rectangle(self, ds: State, r: Rectangle) -> Result<
        State,
        ErrModel,
    > {
        if !ds.text_rectangle.spec_contains(r) {
            Err(ErrModel::UnsupportedTagValue)
        } else if r.x < 1 || r.y < 1 {
            Err(ErrModel::UnsupportedTagValue)
        } else if (r.x - 1) as u16 % self.spec_char_width() != 0
            || r.w % self.spec_char_width() != 0 {
            Err(ErrModel::UnsupportedTagValue)
        } else if (r.y - 1) as u16 % self.spec_char_height() != 0
            || r.h % self.spec_char_height() != 0 {
            Err(ErrModel::UnsupportedTagValue)
        } else {
            Ok(State { text_rectangle: r, ..self })
        }
    }

    /// The transition for one tag value: a total function from the
    /// current state, the sign defaults and the tag to a new state or a
    /// typed error.  On an error the state is unchanged.
    pub open spec fn spec_update(self, ds: State, v: Value) -> Result<State, ErrModel> {
        match v {
            Value::ColorBackground(None) => Ok(
                State { page_background: ds.page_background, ..self },
            ),
            Value::ColorBackground(Some(c)) => match self.spec_get_color(c, ds) {
                Some(c2) => Ok(State { page_background: c2, ..self }),
                None => Err(ErrModel::UnsupportedTagValue),
            },
            Value::ColorForeground(None) => Ok(
                State { color_foreground: ds.color_foreground, ..self },
            ),
            Value::ColorForeground(Some(c)) => match self.spec_get_color(c, ds) {
                Some(c2) => Ok(State { color_foreground: c2, ..self }),
                None => Err(ErrModel::UnsupportedTagValue),
            },
            Value::ColorRectangle(_, c) => match self.spec_get_color(c, ds) {
                Some(_) => Ok(self),
                None => Err(ErrModel::UnsupportedTagValue),
            },
            Value::Font(None) => Ok(State { font: ds.font, ..self }),
            Value::Font(Some(f)) => Ok(State { font: f, ..self }),
            Value::Graphic(_, _) => Ok(self),
            Value::JustificationLine(Some(LineJustification::Other)) => Err(
                ErrModel::UnsupportedTagValue,
            ),
            Value::JustificationLine(Some(LineJustification::Full)) => Err(
                ErrModel::UnsupportedTagValue,
            ),
            Value::JustificationLine(jl) => Ok(
                State {
                    just_line: match jl {
                        Some(j) => j,
                        None => ds.just_line,
                    },
                    ..self
                },
            ),
            Value::JustificationPage(Some(PageJustification::Other)) => Err(
                ErrModel::UnsupportedTagValue,
            ),
            Value::JustificationPage(jp) => Ok(
                State {
                    just_page: match jp {
                        Some(j) => j,
                        None => ds.just_page,
                    },
                    line_number: 0u8,
                    ..self
                },
            ),
            Value::NewLine(None) => if self.line_number < 255 {
                Ok(
                    State {
                        line_spacing: None::<u8>,
                        line_number: (self.line_number + 1) as u8,
                        ..self
                    },
                )
            } else {
                Err(ErrModel::UnsupportedTagValue)
            },
            Value::NewLine(Some(ls)) => if !self.spec_is_full_matrix() {
                Err(ErrModel::UnsupportedTagValue)
            } else if self.line_number < 255 {
                Ok(
                    State {
                        line_spacing: Some(ls),
                        line_number: (self.line_number + 1) as u8,
                        ..self
                    },
                )
            } else {
                Err(ErrModel::UnsupportedTagValue)
            },
            Value::NewPage => Ok(State { line_number: 0u8, ..self }),
            Value::PageBackground(None) => Ok(
                State { page_background: ds.page_background, ..self },
            ),
            Value::PageBackground(Some(c)) => match self.spec_get_color(c, ds) {
                Some(c2) => Ok(State { page_background: c2, ..self }),
                None => Err(ErrModel::UnsupportedTagValue),
            },
            Value::PageTime(on, off) => Ok(
                State {
                    page_on_time_ds: match on {
                        Some(t) => t,
                        None => ds.page_on_time_ds,
                    },
                    page_off_time_ds: match off {
                        Some(t) => t,
                        None => ds.page_off_time_ds,
                    },
                    ..self
                },
            ),
            Value::SpacingCharacter(sc) => if self.spec_is_char_matrix() {
                Err(ErrModel::UnsupportedTag("sc"@))
            } else {
                Ok(State { char_spacing: Some(sc), ..self })
            },
            Value::SpacingCharacterEnd => Ok(State { char_spacing: None::<u8>, ..self }),
            Value::TextRectangle(r) => self.spec_update_text_rectangle(ds, r),
            Value::Text(_) => Ok(self),
        }
    }

    /// Update the text rectangle (4.2a).
    pub fn update_text_rectangle(&mut self, default_state: &State, r: &Rectangle) -> (res: Result<
        (),
        SyntaxError,
    >)
        ensures
            match old(self).spec_update_text_rectangle(*default_state, *r) {
                Ok(s2) => res matches Ok(u) && *final(self) == s2,
                Err(e) => res matches Err(e2) && e2@ == e && *final(self) == *old(self),
            },
    {
        if !default_state.text_rectangle.contains(r) {
            return Err(SyntaxError::UnsupportedTagValue);
        }
        if r.x < 1 || r.y < 1 {
            return Err(SyntaxError::UnsupportedTagValue);
        }
        let cw = self.char_width_px();
        // Check that the text rectangle matches the character boundaries
        let x = r.x - 1;
        if x % cw != 0 || r.w % cw != 0 {
            return Err(SyntaxError::UnsupportedTagValue);
        }
        let lh = self.char_height_px();
        // Check that the text rectangle matches the line boundaries
        let y = r.y - 1;
        if y % lh != 0 || r.h % lh != 0 {
            return Err(SyntaxError::UnsupportedTagValue);
        }
        self.text_rectangle = *r;
        Ok(())
    }

    /// Update the render state with one MULTI value, against the sign's
    /// default state.  The new state is exactly `spec_update`'s; on an
    /// error the state is unchanged.
    pub fn update(&mut self, default_state: &State, v: &Value) -> (res: Result<(), SyntaxError>)
        ensures
            match old(self).spec_update(*default_state, *v) {
                Ok(s2) => res matches Ok(u) && *final(self) == s2,
                Err(e) => res matches Err(e2) && e2@ == e && *final(self) == *old(self),
            },
    {
        match v {
            Value::ColorBackground(None) => {
                // This tag remains for backward compatibility with 1203v1
                self.page_background = default_state.page_background;
            },
            Value::ColorBackground(Some(c)) => {
                match self.get_color(*c, default_state) {
                    Ok(c2) => self.page_background = c2,
                    Err(e) => return Err(e),
                }
            },
            Value::ColorForeground(None) => {
                self.color_foreground = default_state.color_foreground;
            },
            Value::ColorForeground(Some(c)) => {
                match self.get_color(*c, default_state) {
                    Ok(c2) => self.color_foreground = c2,
                    Err(e) => return Err(e),
                }
            },
            Value::ColorRectangle(_, c) => {
                match self.get_color(*c, default_state) {
                    Ok(_) => (),
                    Err(e) => return Err(e),
                }
            },
            Value::Font(None) => {
                self.font = default_state.font;
            },
            Value::Font(Some(f)) => {
                self.font = *f;
            },
            Value::Graphic(_, _) => (),
            Value::JustificationLine(Some(LineJustification::Other)) => {
                return Err(SyntaxError::UnsupportedTagValue);
            },
            Value::JustificationLine(Some(LineJustification::Full)) => {
                return Err(SyntaxError::UnsupportedTagValue);
            },
            Value::JustificationLine(jl) => {
                self.just_line = match jl {
                    Some(j) => *j,
                    None => default_state.just_line,
                };
            },
            Value::JustificationPage(Some(PageJustification::Other)) => {
                return Err(SyntaxError::UnsupportedTagValue);
            },
            Value::JustificationPage(jp) => {
                self.just_page = match jp {
                    Some(j) => *j,
                    None => default_state.just_page,
                };
                self.line_number = 0;
            },
            Value::NewLine(None) => {
                if self.line_number == 255 {
                    // The line counter is a u8; a page with more lines
                    // than that is not supported.
                    return Err(SyntaxError::UnsupportedTagValue);
                }
                self.line_spacing = None;
                self.line_number = self.line_number + 1;
            },
            Value::NewLine(Some(ls)) => {
                if !self.is_full_matrix() {
                    return Err(SyntaxError::UnsupportedTagValue);
                }
                if self.line_number == 255 {
                    return Err(SyntaxError::UnsupportedTagValue);
                }
                self.line_spacing = Some(*ls);
                self.line_number = self.line_number + 1;
            },
            Value::NewPage => {
                self.line_number = 0;
            },
            Value::PageBackground(None) => {
                self.page_background = default_state.page_background;
            },
            Value::PageBackground(Some(c)) => {
                match self.get_color(*c, default_state) {
                    Ok(c2) => self.page_background = c2,
                    Err(e) => return Err(e),
                }
            },
            Value::PageTime(on, off) => {
                self.page_on_time_ds = match on {
                    Some(t) => *t,
                    None => default_state.page_on_time_ds,
                };
                self.page_off_time_ds = match off {
                    Some(t) => *t,
                    None => default_state.page_off_time_ds,
                };
            },
            Value::SpacingCharacter(sc) => {
                if self.is_char_matrix() {
                    return Err(SyntaxError::UnsupportedTag("sc".to_owned()));
                }
                self.char_spacing = Some(*sc);
            },
            Value::SpacingCharacterEnd => {
                self.char_spacing = None;
            },
            Value::TextRectangle(r) => {
                return self.update_text_rectangle(default_state, r);
            },
            Value::Text(_) => (),
        }
        Ok(())
    }

    /// States whose spans stack above (or at) `other`'s line in the same
    /// rectangle and page justification.
    pub open spec fn spec_matches_top(self, other: State) -> bool {
        &&& self.text_rectangle == other.text_rectangle
        &&& self.just_page == other.just_page
        &&& self.line_number <= other.line_number
    }

    /// Check if states match for top-justified lines.
    pub fn matches_top(&self, other: &State) -> (r: bool)
        ensures
            r == self.spec_matches_top(*other),
    {
        self.text_rectangle == other.text_rectangle && self.just_page == other.just_page
            && self.line_number <= other.line_number
    }

    /// States whose spans share `other`'s rectangle and page
    /// justification, whatever their line.
    pub open spec fn spec_matches_middle(self, other: State) -> bool {
        &&& self.text_rectangle == other.text_rectangle
        &&& self.just_page == other.just_page
    }

    /// Check if states match for middle-justified lines.
    pub fn matches_middle(&self, other: &State) -> (r: bool)
        ensures
            r == self.spec_matches_middle(*other),
    {
        self.text_rectangle == other.text_rectangle && self.just_page == other.just_page
    }

    /// States whose spans stack strictly below `other`'s line in the same
    /// rectangle and page justification.
    pub open spec fn spec_matches_bottom(self, other: State) -> bool {
        &&& self.text_rectangle == other.text_rectangle
        &&& self.just_page == other.just_page
        &&& self.line_number > other.line_number
    }

    /// Check if states match for bottom-justified lines.
    pub fn matches_bottom(&self, other: &State) -> (r: bool)
        ensures
            r == self.spec_matches_bottom(*other),
    {
        self.text_rectangle == other.text_rectangle && self.just_page == other.just_page
            && self.line_number > other.line_number
    }
}

} // verus!
