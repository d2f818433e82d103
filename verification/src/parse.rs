//! Tokenizer for MULTI strings: turns markup text into a sequence of
//! typed tag values.  The interpretation of the values is the work of the
//! state transition and the page splitter; the tokenizer itself is the
//! front end that feeds them.

use vstd::prelude::*;
use vstd::string::StrSliceExecFns;
use crate::color::Color;
use crate::values::{LineJustification, PageJustification, Rectangle, SyntaxError, Value};

verus! {

/// Relies on String::push: appends exactly one character.
#[verifier::external_body]
fn push_char(s: &mut String, c: char)
    ensures
        final(s)@ == old(s)@.push(c),
{
    s.push(c);
}

/// Collect the characters of a string slice.
fn str_to_chars(ms: &str) -> (v: Vec<char>)
    ensures
        v@ == ms@,
{
    let n = ms.unicode_len();
    let mut v: Vec<char> = Vec::new();
    let mut i: usize = 0;
    while i < n
        invariant
            0 <= i <= n,
            n == ms@.len(),
            v@ == ms@.subrange(0, i as int),
        decreases n - i,
    {
        let c = ms.get_char(i);
        v.push(c);
        proof {
            assert(v@ =~= ms@.subrange(0, i as int + 1));
        }
        i = i + 1;
    }
    proof {
        assert(ms@.subrange(0, n as int) =~= ms@);
    }
    v
}

/// Build a string of exactly the given characters.
fn chars_to_string(v: &Vec<char>) -> (s: String)
    ensures
        s@ == v@,
{
    let mut s = String::new();
    let mut i: usize = 0;
    while i < v.len()
        invariant
            0 <= i <= v@.len(),
            s@ == v@.subrange(0, i as int),
        decreases v@.len() - i,
    {
        push_char(&mut s, v[i]);
        proof {
            assert(s@ =~= v@.subrange(0, i as int + 1));
        }
        i = i + 1;
    }
    proof {
        assert(v@.subrange(0, v@.len() as int) =~= v@);
    }
    s
}

/// Lower-case image of an ASCII letter; other characters unchanged.
fn lower(c: char) -> char {
    match c {
        'A' => 'a',
        'B' => 'b',
        'C' => 'c',
        'D' => 'd',
        'E' => 'e',
        'F' => 'f',
        'G' => 'g',
        'H' => 'h',
        'I' => 'i',
        'J' => 'j',
        'K' => 'k',
        'L' => 'l',
        'M' => 'm',
        'N' => 'n',
        'O' => 'o',
        'P' => 'p',
        'Q' => 'q',
        'R' => 'r',
        'S' => 's',
        'T' => 't',
        'U' => 'u',
        'V' => 'v',
        'W' => 'w',
        'X' => 'x',
        'Y' => 'y',
        'Z' => 'z',
        _ => c,
    }
}

/// Whether the character is a decimal digit.
fn is_digit(c: char) -> (r: bool)
    ensures
        r == ('0' <= c && c <= '9'),
{
    c >= '0' && c <= '9'
}

/// Decimal value of a digit character.
fn digit_value(c: char) -> (d: u32)
    requires
        '0' <= c <= '9',
    ensures
        d <= 9,
{
    (c as u32) - ('0' as u32)
}

/// Hexadecimal value of a digit or lower-case letter, if it has one.
fn hex_value(c: char) -> (d: Option<u32>)
    ensures
        d matches Some(v) ==> v <= 15,
{
    if c >= '0' && c <= '9' {
        Some((c as u32) - ('0' as u32))
    } else if c >= 'a' && c <= 'f' {
        Some((c as u32) - ('a' as u32) + 10)
    } else {
        None
    }
}

/// Parse a decimal number of at most 65535 starting at `start`; the
/// value and the position after its last digit.
fn parse_dec(body: &Vec<char>, start: usize) -> (r: Option<(u16, usize)>)
    ensures
        r matches Some(p) ==> start < p.1 <= body@.len(),
{
    let n = body.len();
    if start >= n || !is_digit(body[start]) {
        return None;
    }
    let mut val: u32 = digit_value(body[start]);
    let mut pos: usize = start + 1;
    while pos < n
        invariant
            start < pos <= n,
            n == body@.len(),
            val <= 65535,
        decreases n - pos,
    {
        if !is_digit(body[pos]) {
            return Some((val as u16, pos));
        }
        let d = digit_value(body[pos]);
        let val2 = val * 10 + d;
        if val2 > 65535 {
            return None;
        }
        val = val2;
        pos = pos + 1;
    }
    Some((val as u16, pos))
}

/// Parse a hexadecimal number of at most 0xFFFF starting at `start`; the
/// value and the position after its last digit.
fn parse_hex(body: &Vec<char>, start: usize) -> (r: Option<(u16, usize)>)
    ensures
        r matches Some(p) ==> start < p.1 <= body@.len(),
{
    let n = body.len();
    if start >= n {
        return None;
    }
    let first = match hex_value(body[start]) {
        Some(d) => d,
        None => {
            return None;
        },
    };
    let mut pos: usize = start + 1;
    let mut val: u32 = first;
    while pos < n
        invariant
            start < pos <= n,
            n == body@.len(),
            val <= 65535,
        decreases n - pos,
    {
        let d = match hex_value(body[pos]) {
            Some(d) => d,
            None => {
                return Some((val as u16, pos));
            },
        };
        let val2 = val * 16 + d;
        if val2 > 65535 {
            return None;
        }
        val = val2;
        pos = pos + 1;
    }
    Some((val as u16, pos))
}

/// Parse the color argument form `v` or `r,g,b` filling the whole tail of
/// the tag body.
fn parse_color_args(body: &Vec<char>, start: usize) -> Option<Color> {
    let n = body.len();
    let (v1, p1) = match parse_dec(body, start) {
        Some(p) => p,
        None => {
            return None;
        },
    };
    if p1 == n {
        if v1 <= 255 {
            return Some(Color::Legacy(v1 as u8));
        }
        return None;
    }
    if body[p1] != ',' {
        return None;
    }
    let (v2, p2) = match parse_dec(body, p1 + 1) {
        Some(p) => p,
        None => {
            return None;
        },
    };
    if p2 >= n || body[p2] != ',' {
        return None;
    }
    let (v3, p3) = match parse_dec(body, p2 + 1) {
        Some(p) => p,
        None => {
            return None;
        },
    };
    if p3 != n {
        return None;
    }
    if v1 <= 255 && v2 <= 255 && v3 <= 255 {
        Some(Color::RGB(v1 as u8, v2 as u8, v3 as u8))
    } else {
        None
    }
}

/// Parse `x,y,w,h` starting at `start`; the rectangle and the position
/// after its last digit.
fn parse_rect(body: &Vec<char>, start: usize) -> (r: Option<(Rectangle, usize)>)
    ensures
        r matches Some(p) ==> p.1 <= body@.len(),
{
    let n = body.len();
    let (x, p1) = match parse_dec(body, start) {
        Some(p) => p,
        None => {
            return None;
        },
    };
    if p1 >= n || body[p1] != ',' {
        return None;
    }
    let (y, p2) = match parse_dec(body, p1 + 1) {
        Some(p) => p,
        None => {
            return None;
        },
    };
    if p2 >= n || body[p2] != ',' {
        return None;
    }
    let (w, p3) = match parse_dec(body, p2 + 1) {
        Some(p) => p,
        None => {
            return None;
        },
    };
    if p3 >= n || body[p3] != ',' {
        return None;
    }
    let (h, p4) = match parse_dec(body, p3 + 1) {
        Some(p) => p,
        None => {
            return None;
        },
    };
    Some((Rectangle { x, y, w, h }, p4))
}

/// Parse one lower-cased tag body (the text between brackets) into a
/// value.  A tag outside the supported set fails `UnsupportedTag` with
/// its name; a malformed argument fails `UnsupportedTagValue`.
fn parse_tag(body: &Vec<char>) -> Result<Value, SyntaxError> {
    let n = body.len();
    if n == 0 {
        return Err(SyntaxError::UnsupportedTag(chars_to_string(body)));
    }
    let c0 = body[0];
    if c0 == '/' {
        if n == 3 && body[1] == 's' && body[2] == 'c' {
            return Ok(Value::SpacingCharacterEnd);
        }
        return Err(SyntaxError::UnsupportedTag(chars_to_string(body)));
    }
    if c0 == 'c' && n >= 2 && (body[1] == 'b' || body[1] == 'f') {
        let color = if n == 2 {
            None
        } else {
            match parse_color_args(body, 2) {
                Some(c) => Some(c),
                None => {
                    return Err(SyntaxError::UnsupportedTagValue);
                },
            }
        };
        if body[1] == 'b' {
            return Ok(Value::ColorBackground(color));
        }
        return Ok(Value::ColorForeground(color));
    }
    if c0 == 'c' && n >= 2 && body[1] == 'r' {
        let (rect, p) = match parse_rect(body, 2) {
            Some(p) => p,
            None => {
                return Err(SyntaxError::UnsupportedTagValue);
            },
        };
        if p >= n || body[p] != ',' {
            return Err(SyntaxError::UnsupportedTagValue);
        }
        let color = match parse_color_args(body, p + 1) {
            Some(c) => c,
            None => {
                return Err(SyntaxError::UnsupportedTagValue);
            },
        };
        return Ok(Value::ColorRectangle(rect, color));
    }
    if c0 == 'p' && n >= 2 && body[1] == 'b' {
        let color = if n == 2 {
            None
        } else {
            match parse_color_args(body, 2) {
                Some(c) => Some(c),
                None => {
                    return Err(SyntaxError::UnsupportedTagValue);
                },
            }
        };
        return Ok(Value::PageBackground(color));
    }
    if c0 == 'f' && n >= 2 && body[1] == 'o' {
        if n == 2 {
            return Ok(Value::Font(None));
        }
        let (fnum, p) = match parse_dec(body, 2) {
            Some(p) => p,
            None => {
                return Err(SyntaxError::UnsupportedTagValue);
            },
        };
        if fnum > 255 {
            return Err(SyntaxError::UnsupportedTagValue);
        }
        if p == n {
            return Ok(Value::Font(Some((fnum as u8, None))));
        }
        if body[p] != ',' {
            return Err(SyntaxError::UnsupportedTagValue);
        }
        let (ver, p2) = match parse_hex(body, p + 1) {
            Some(p2) => p2,
            None => {
                return Err(SyntaxError::UnsupportedTagValue);
            },
        };
        if p2 != n {
            return Err(SyntaxError::UnsupportedTagValue);
        }
        return Ok(Value::Font(Some((fnum as u8, Some(ver)))));
    }
    if c0 == 'g' {
        let (gnum, p) = match parse_dec(body, 1) {
            Some(p) => p,
            None => {
                return Err(SyntaxError::UnsupportedTagValue);
            },
        };
        if gnum > 255 {
            return Err(SyntaxError::UnsupportedTagValue);
        }
        if p == n {
            return Ok(Value::Graphic(gnum as u8, None));
        }
        if body[p] != ',' {
            return Err(SyntaxError::UnsupportedTagValue);
        }
        let (x, p2) = match parse_dec(body, p + 1) {
            Some(p2) => p2,
            None => {
                return Err(SyntaxError::UnsupportedTagValue);
            },
        };
        if p2 >= n || body[p2] != ',' {
            return Err(SyntaxError::UnsupportedTagValue);
        }
        let (y, p3) = match parse_dec(body, p2 + 1) {
            Some(p3) => p3,
            None => {
                return Err(SyntaxError::UnsupportedTagValue);
            },
        };
        if p3 == n {
            return Ok(Value::Graphic(gnum as u8, Some((x, y, None))));
        }
        if body[p3] != ',' {
            return Err(SyntaxError::UnsupportedTagValue);
        }
        let (crc, p4) = match parse_hex(body, p3 + 1) {
            Some(p4) => p4,
            None => {
                return Err(SyntaxError::UnsupportedTagValue);
            },
        };
        if p4 != n {
            return Err(SyntaxError::UnsupportedTagValue);
        }
        return Ok(Value::Graphic(gnum as u8, Some((x, y, Some(crc)))));
    }
    if c0 == 'j' && n >= 2 && body[1] == 'l' {
        if n == 2 {
            return Ok(Value::JustificationLine(None));
        }
        if n == 3 && is_digit(body[2]) {
            let d = digit_value(body[2]);
            match LineJustification::from_code(d as u8) {
                Some(j) => {
                    return Ok(Value::JustificationLine(Some(j)));
                },
                None => {
                    return Err(SyntaxError::UnsupportedTagValue);
                },
            }
        }
        return Err(SyntaxError::UnsupportedTagValue);
    }
    if c0 == 'j' && n >= 2 && body[1] == 'p' {
        if n == 2 {
            return Ok(Value::JustificationPage(None));
        }
        if n == 3 && is_digit(body[2]) {
            let d = digit_value(body[2]);
            match PageJustification::from_code(d as u8) {
                Some(j) => {
                    return Ok(Value::JustificationPage(Some(j)));
                },
                None => {
                    return Err(SyntaxError::UnsupportedTagValue);
                },
            }
        }
        return Err(SyntaxError::UnsupportedTagValue);
    }
    if c0 == 'n' && n >= 2 && body[1] == 'l' {
        if n == 2 {
            return Ok(Value::NewLine(None));
        }
        let (sp, p) = match parse_dec(body, 2) {
            Some(p) => p,
            None => {
                return Err(SyntaxError::UnsupportedTagValue);
            },
        };
        if p != n || sp > 255 {
            return Err(SyntaxError::UnsupportedTagValue);
        }
        return Ok(Value::NewLine(Some(sp as u8)));
    }
    if c0 == 'n' && n >= 2 && body[1] == 'p' {
        if n == 2 {
            return Ok(Value::NewPage);
        }
        return Err(SyntaxError::UnsupportedTagValue);
    }
    if c0 == 'p' && n >= 2 && body[1] == 't' {
        let mut pos: usize = 2;
        let mut on: Option<u8> = None;
        if pos < n && is_digit(body[pos]) {
            let (v, p) = match parse_dec(body, pos) {
                Some(p) => p,
                None => {
                    return Err(SyntaxError::UnsupportedTagValue);
                },
            };
            if v > 255 {
                return Err(SyntaxError::UnsupportedTagValue);
            }
            on = Some(v as u8);
            pos = p;
        }
        let mut off: Option<u8> = None;
        if pos < n {
            if body[pos] != 'o' {
                return Err(SyntaxError::UnsupportedTagValue);
            }
            pos = pos + 1;
            if pos < n {
                let (v, p) = match parse_dec(body, pos) {
                    Some(p) => p,
                    None => {
                        return Err(SyntaxError::UnsupportedTagValue);
                    },
                };
                if v > 255 || p != n {
                    return Err(SyntaxError::UnsupportedTagValue);
                }
                off = Some(v as u8);
                pos = p;
            }
        }
        if pos != n {
            return Err(SyntaxError::UnsupportedTagValue);
        }
        return Ok(Value::PageTime(on, off));
    }
    if c0 == 's' && n >= 2 && body[1] == 'c' {
        let (sp, p) = match parse_dec(body, 2) {
            Some(p) => p,
            None => {
                return Err(SyntaxError::UnsupportedTagValue);
            },
        };
        if p != n || sp > 255 {
            return Err(SyntaxError::UnsupportedTagValue);
        }
        return Ok(Value::SpacingCharacter(sp as u8));
    }
    if c0 == 't' && n >= 2 && body[1] == 'r' {
        let (rect, p) = match parse_rect(body, 2) {
            Some(p) => p,
            None => {
                return Err(SyntaxError::UnsupportedTagValue);
            },
        };
        if p != n {
            return Err(SyntaxError::UnsupportedTagValue);
        }
        return Ok(Value::TextRectangle(rect));
    }
    // Tags outside the supported set, among them the field, flash,
    // hexadecimal-character, message and moving-text tags.
    Err(SyntaxError::UnsupportedTag(chars_to_string(body)))
}

/// Tokenize a MULTI string: the values before the first malformed or
/// unsupported construct, and that construct's error, if any.  Literal
/// runs become single text values; `[[` and `]]` escape the brackets;
/// tags are read case-insensitively.
pub fn parse_multi(ms: &str) -> (r: (Vec<Value>, Option<SyntaxError>))
    ensures
        ms@.len() == 0 ==> r.0@.len() == 0 && r.1 is None,
        (ms@.len() > 0 && (forall|j: int|
            0 <= j < ms@.len() ==> ms@[j] != '[' && ms@[j] != ']')) ==> (r.0@.len() == 1
            && r.1 is None && (r.0@[0] matches Value::Text(t) && t@ == ms@)),
{
    let chars = str_to_chars(ms);
    let ghost lit = forall|j: int| 0 <= j < ms@.len() ==> ms@[j] != '[' && ms@[j] != ']';
    let mut vals: Vec<Value> = Vec::new();
    let n = chars.len();
    let mut i: usize = 0;
    while i < n
        invariant
            0 <= i <= n,
            n == chars@.len(),
            chars@ == ms@,
            lit == (forall|j: int| 0 <= j < ms@.len() ==> ms@[j] != '[' && ms@[j] != ']'),
            n == 0 ==> vals@.len() == 0,
            lit && n > 0 ==> ((i == 0 && vals@.len() == 0) || (i == n && vals@.len() == 1
                && (vals@[0] matches Value::Text(t) && t@ == ms@))),
        decreases n - i,
    {
        let c = chars[i];
        let tag_start = c == '[' && !(i + 1 < n && chars[i + 1] == '[');
        if tag_start {
            let mut j: usize = i + 1;
            let mut body: Vec<char> = Vec::new();
            while j < n && chars[j] != ']'
                invariant
                    i + 1 <= j <= n,
                    i < n,
                    n == chars@.len(),
                    chars@ == ms@,
                decreases n - j,
            {
                body.push(lower(chars[j]));
                j = j + 1;
            }
            if j >= n {
                // unterminated tag
                return (vals, Some(SyntaxError::UnsupportedTag(chars_to_string(&body))));
            }
            match parse_tag(&body) {
                Ok(v) => vals.push(v),
                Err(e) => {
                    return (vals, Some(e));
                },
            }
            i = j + 1;
        } else {
            // literal text run, with bracket escapes
            let ghost i0 = i as int;
            let mut txt = String::new();
            let mut bad = false;
            while i < n
                invariant_except_break
                    !bad,
                invariant
                    0 <= i0 < n,
                    i0 <= i <= n,
                    n == chars@.len(),
                    chars@ == ms@,
                    lit == (forall|j: int|
                        0 <= j < ms@.len() ==> ms@[j] != '[' && ms@[j] != ']'),
                    !(chars@[i0] == '[' && !(i0 + 1 < n && chars@[i0 + 1] == '[')),
                    lit ==> txt@ == chars@.subrange(i0, i as int),
                ensures
                    i0 <= i <= n,
                    n == chars@.len(),
                    bad || i > i0,
                    lit ==> (!bad && i == n && txt@ == chars@.subrange(i0, n as int)),
                decreases n - i,
            {
                let c2 = chars[i];
                if c2 == '[' {
                    if i + 1 < n && chars[i + 1] == '[' {
                        push_char(&mut txt, '[');
                        i = i + 2;
                    } else {
                        break;
                    }
                } else if c2 == ']' {
                    if i + 1 < n && chars[i + 1] == ']' {
                        push_char(&mut txt, ']');
                        i = i + 2;
                    } else {
                        bad = true;
                        break;
                    }
                } else {
                    push_char(&mut txt, c2);
                    proof {
                        if lit {
                            assert(txt@ =~= chars@.subrange(i0, i as int + 1));
                        }
                    }
                    i = i + 1;
                }
            }
            proof {
                if lit && i0 == 0 {
                    assert(chars@.subrange(0, n as int) =~= chars@);
                }
            }
            vals.push(Value::Text(txt));
            if bad {
                // a lone closing bracket
                return (vals, Some(SyntaxError::UnsupportedTagValue));
            }
        }
    }
    (vals, None)
}

} // verus!
