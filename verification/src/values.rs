//! Tag values of the MULTI markup language, and the errors an
//! interpretation can raise.

use vstd::prelude::*;
use crate::color::Color;

verus! {

/// A rectangle on the sign, with a 1-based top-left corner.
#[derive(Clone, Copy, PartialEq, Eq, Structural, Debug)]
pub struct Rectangle {
    pub x: u16,
    pub y: u16,
    pub w: u16,
    pub h: u16,
}

impl Rectangle {
    /// Create a new rectangle.
    pub fn new(x: u16, y: u16, w: u16, h: u16) -> (r: Rectangle)
        ensures
            r == (Rectangle { x, y, w, h }),
    {
        Rectangle { x, y, w, h }
    }

    /// `other` lies fully inside `self`.
    pub open spec fn spec_contains(self, other: Rectangle) -> bool {
        &&& other.x >= self.x
        &&& other.y >= self.y
        &&& other.x + other.w <= self.x + self.w
        &&& other.y + other.h <= self.y + self.h
    }

    /// Check whether `other` lies fully inside `self`.
    pub fn contains(&self, other: &Rectangle) -> (r: bool)
        ensures
            r == self.spec_contains(*other),
    {
        other.x >= self.x && other.y >= self.y
            && (other.x as u32) + (other.w as u32) <= (self.x as u32) + (self.w as u32)
            && (other.y as u32) + (other.h as u32) <= (self.y as u32) + (self.h as u32)
    }
}

/// Vertical alignment of a page's text block within its rectangle.
/// The order of the variants is the rank order of the standard's codes.
#[derive(Clone, Copy, PartialEq, Eq, Structural, Debug)]
pub enum PageJustification {
    Other,
    Top,
    Middle,
    Bottom,
}

impl PageJustification {
    /// Numeric code of the justification in the standard; also its rank.
    pub open spec fn spec_code(self) -> u8 {
        match self {
            PageJustification::Other => 1,
            PageJustification::Top => 2,
            PageJustification::Middle => 3,
            PageJustification::Bottom => 4,
        }
    }

    /// Numeric code of the justification in the standard; also its rank.
    #[verifier::when_used_as_spec(spec_code)]
    pub fn code(self) -> (c: u8)
        ensures
            c == self.spec_code(),
    {
        match self {
            PageJustification::Other => 1,
            PageJustification::Top => 2,
            PageJustification::Middle => 3,
            PageJustification::Bottom => 4,
        }
    }

    /// Justification with the given code, if any.
    pub open spec fn spec_from_code(c: u8) -> Option<PageJustification> {
        match c {
            1u8 => Some(PageJustification::Other),
            2u8 => Some(PageJustification::Top),
            3u8 => Some(PageJustification::Middle),
            4u8 => Some(PageJustification::Bottom),
            _ => None,
        }
    }

    /// Look up the justification with the given code.
    pub fn from_code(c: u8) -> (r: Option<PageJustification>)
        ensures
            r == Self::spec_from_code(c),
    {
        match c {
            1u8 => Some(PageJustification::Other),
            2u8 => Some(PageJustification::Top),
            3u8 => Some(PageJustification::Middle),
            4u8 => Some(PageJustification::Bottom),
            _ => None,
        }
    }
}

/// Horizontal alignment of one line within the page's text block.
/// The order of the variants is the rank order of the standard's codes.
#[derive(Clone, Copy, PartialEq, Eq, Structural, Debug)]
pub enum LineJustification {
    Other,
    Left,
    Center,
    Right,
    Full,
}

impl LineJustification {
    /// Numeric code of the justification in the standard; also its rank.
    pub open spec fn spec_code(self) -> u8 {
        match self {
            LineJustification::Other => 1,
            LineJustification::Left => 2,
            LineJustification::Center => 3,
            LineJustification::Right => 4,
            LineJustification::Full => 5,
        }
    }

    /// Numeric code of the justification in the standard; also its rank.
    #[verifier::when_used_as_spec(spec_code)]
    pub fn code(self) -> (c: u8)
        ensures
            c == self.spec_code(),
    {
        match self {
            LineJustification::Other => 1,
            LineJustification::Left => 2,
            LineJustification::Center => 3,
            LineJustification::Right => 4,
            LineJustification::Full => 5,
        }
    }

    /// Justification with the given code, if any.
    pub open spec fn spec_from_code(c: u8) -> Option<LineJustification> {
        match c {
            1u8 => Some(LineJustification::Other),
            2u8 => Some(LineJustification::Left),
            3u8 => Some(LineJustification::Center),
            4u8 => Some(LineJustification::Right),
            5u8 => Some(LineJustification::Full),
            _ => None,
        }
    }

    /// Look up the justification with the given code.
    pub fn from_code(c: u8) -> (r: Option<LineJustification>)
        ensures
            r == Self::spec_from_code(c),
    {
        match c {
            1u8 => Some(LineJustification::Other),
            2u8 => Some(LineJustification::Left),
            3u8 => Some(LineJustification::Center),
            4u8 => Some(LineJustification::Right),
            5u8 => Some(LineJustification::Full),
            _ => None,
        }
    }
}

/// One typed value of a MULTI string: a tag, or a run of literal text.
#[derive(PartialEq, Debug)]
pub enum Value {
    ColorBackground(Option<Color>),
    ColorForeground(Option<Color>),
    ColorRectangle(Rectangle, Color),
    Font(Option<(u8, Option<u16>)>),
    Graphic(u8, Option<(u16, u16, Option<u16>)>),
    JustificationLine(Option<LineJustification>),
    JustificationPage(Option<PageJustification>),
    NewLine(Option<u8>),
    NewPage,
    PageBackground(Option<Color>),
    PageTime(Option<u8>, Option<u8>),
    SpacingCharacter(u8),
    SpacingCharacterEnd,
    Text(String),
    TextRectangle(Rectangle),
}

/// Why an interpretation of one markup string failed.  Production of the
/// current page stops; other markup strings are unaffected.
#[derive(PartialEq, Debug)]
pub enum SyntaxError {
    /// Tag absent from the supported set, or disallowed in the current mode.
    UnsupportedTag(String),
    /// Recognized tag with an argument that is illegal for the sign's
    /// geometry, color scheme or mode.
    UnsupportedTagValue,
    /// Justification tags out of the allowed order across spans.
    TagConflict,
    /// Computed text width exceeds the rectangle's available width.
    TextTooBig,
}

impl Clone for SyntaxError {
    /// Clone the error, preserving its value.
    fn clone(&self) -> (r: Self)
        ensures
            r == *self,
    {
        match self {
            SyntaxError::UnsupportedTag(s) => SyntaxError::UnsupportedTag(s.clone()),
            SyntaxError::UnsupportedTagValue => SyntaxError::UnsupportedTagValue,
            SyntaxError::TagConflict => SyntaxError::TagConflict,
            SyntaxError::TextTooBig => SyntaxError::TextTooBig,
        }
    }
}

/// Mathematical image of a [`SyntaxError`], with the tag name as a
/// character sequence.
pub enum ErrModel {
    UnsupportedTag(Seq<char>),
    UnsupportedTagValue,
    TagConflict,
    TextTooBig,
}

impl View for SyntaxError {
    type V = ErrModel;

    open spec fn view(&self) -> ErrModel {
        match self {
            SyntaxError::UnsupportedTag(s) => ErrModel::UnsupportedTag(s@),
            SyntaxError::UnsupportedTagValue => ErrModel::UnsupportedTagValue,
            SyntaxError::TagConflict => ErrModel::TagConflict,
            SyntaxError::TextTooBig => ErrModel::TextTooBig,
        }
    }
}

} // verus!
