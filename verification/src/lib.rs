//! Rendering engine for dynamic message sign (DMS) content.
//!
//! A markup string of bracketed tags (the NTCIP 1203 "MULTI" language) is
//! interpreted against a sign's default presentation attributes and split
//! into displayable pages, each with its own background color, timing and
//! text layout.

pub mod color;
pub mod fetcher;
pub mod layout;
pub mod parse;
pub mod splitter;
pub mod state;
pub mod values;
