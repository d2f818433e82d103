//! Color values and the fixed tables shared by every color scheme.

use vstd::prelude::*;

verus! {

/// Color capability of a sign, deciding which color tag values are legal
/// and how legacy palette indices map to RGB.
#[derive(Clone, Copy, PartialEq, Eq, Structural, Debug)]
pub enum ColorScheme {
    Monochrome1Bit,
    Monochrome8Bit,
    ColorClassic,
    Color24Bit,
}

/// A color as written in a tag: a legacy palette index or an explicit
/// RGB triplet.  Legality depends on the color scheme.
#[derive(Clone, Copy, PartialEq, Eq, Structural, Debug)]
pub enum Color {
    Legacy(u8),
    RGB(u8, u8, u8),
}

/// Fixed-point scaling of one channel: map `b` from 0..=255 onto 0..=1 and
/// apply it to `a`, as `(a * b + 255) >> 8`.
pub open spec fn spec_scale_u8(a: u8, b: u8) -> u8 {
    let prod = ((a as u32) * (b as u32) + 255) as u32;
    (prod >> 8u32) as u8
}

/// Scale a u8 value by another (mapping the second to the range 0..=1).
pub fn scale_u8(a: u8, b: u8) -> (c: u8)
    ensures
        c == spec_scale_u8(a, b),
{
    let aa: u32 = a as u32;
    let bb: u32 = b as u32;
    proof {
        assert(aa * bb <= 255 * 255) by (nonlinear_arith)
            requires
                aa <= 255 && bb <= 255,
        ;
    }
    let prod: u32 = aa * bb + 255;
    proof {
        assert(prod <= 65280 ==> (prod >> 8u32) <= 255) by (bit_vector);
    }
    let c: u32 = prod >> 8;
    c as u8
}

/// RGB triplet of a classic palette index (0..=9), or `None` when the
/// index lies outside the classic palette.
pub open spec fn spec_classic_rgb(v: u8) -> Option<[u8; 3]> {
    match v {
        0u8 => Some([0u8, 0u8, 0u8]),
        1u8 => Some([255u8, 0u8, 0u8]),
        2u8 => Some([255u8, 255u8, 0u8]),
        3u8 => Some([0u8, 255u8, 0u8]),
        4u8 => Some([0u8, 255u8, 255u8]),
        5u8 => Some([0u8, 0u8, 255u8]),
        6u8 => Some([255u8, 0u8, 255u8]),
        7u8 => Some([255u8, 255u8, 255u8]),
        8u8 => Some([255u8, 165u8, 0u8]),
        9u8 => Some([255u8, 208u8, 0u8]),
        _ => None,
    }
}

/// Look up the RGB triplet of a classic palette index.
pub fn classic_rgb(v: u8) -> (r: Option<[u8; 3]>)
    ensures
        r == spec_classic_rgb(v),
{
    match v {
        0u8 => Some([0u8, 0u8, 0u8]),
        1u8 => Some([255u8, 0u8, 0u8]),
        2u8 => Some([255u8, 255u8, 0u8]),
        3u8 => Some([0u8, 255u8, 0u8]),
        4u8 => Some([0u8, 255u8, 255u8]),
        5u8 => Some([0u8, 0u8, 255u8]),
        6u8 => Some([255u8, 0u8, 255u8]),
        7u8 => Some([255u8, 255u8, 255u8]),
        8u8 => Some([255u8, 165u8, 0u8]),
        9u8 => Some([255u8, 208u8, 0u8]),
        _ => None,
    }
}

/// A full scale factor keeps every channel value.
pub proof fn lemma_scale_full(b: u8)
    ensures
        spec_scale_u8(255, b) == b,
{
    let bb = b as u32;
    let prod = (255u32 * bb + 255u32) as u32;
    assert(prod >> 8u32 == prod / 256u32) by (bit_vector);
    assert(prod == 256 * bb + (255 - bb));
    assert(prod / 256u32 == bb) by (nonlinear_arith)
        requires
            prod == 256 * bb + (255 - bb) && bb <= 255,
    ;
    assert(spec_scale_u8(255, b) == ((prod >> 8u32) as u8));
}

/// Every zero channel scales to zero, whatever the scale factor.
pub proof fn lemma_scale_zero(b: u8)
    ensures
        spec_scale_u8(0, b) == 0,
{
    let prod = ((0u8 as u32) * (b as u32) + 255) as u32;
    assert(prod == 255);
    assert(prod == 255 ==> (prod >> 8u32) == 0u32) by (bit_vector);
    assert(spec_scale_u8(0, b) == ((prod >> 8u32) as u8));
}

} // verus!
