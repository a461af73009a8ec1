//! Hex color notation used by the color picker popup: formatting and parsing.
use vstd::prelude::*;
use crate::text::{ascii_lower, chars_of, is_whitespace, push_char, trim, trim_end, trim_start, trim_range};

verus! {

/// An sRGB color with 8-bit channels, the precision of the `#RRGGBB` notation.
#[derive(Debug, Clone, Copy, PartialEq, Eq, Structural)]
pub struct Rgb8 {
    pub r: u8,
    pub g: u8,
    pub b: u8,
}

/// Cursor hint for different regions of the color picker popup.
#[derive(Debug, Clone, Copy, PartialEq, Eq, Structural)]
pub enum ColorPickerCursorHint {
    /// Default arrow cursor.
    Default,
    /// Text editing cursor (I-beam).
    Text,
    /// Crosshair for color selection.
    Crosshair,
    /// Pointer/hand cursor for buttons.
    Pointer,
}

/// The upper-case hexadecimal digit for a value below 16.
pub open spec fn hex_upper(n: int) -> char {
    if n < 10 {
        (48 + n) as char
    } else {
        (55 + n) as char
    }
}

/// Whether a character is an ASCII hexadecimal digit (`char::is_ascii_hexdigit`).
pub open spec fn is_hex_digit(c: char) -> bool {
    ||| ('0' <= c && c <= '9')
    ||| ('a' <= c && c <= 'f')
    ||| ('A' <= c && c <= 'F')
}

/// The value of an ASCII hexadecimal digit.
pub open spec fn hex_value(c: char) -> int {
    if '0' <= c && c <= '9' {
        (c as int) - 48
    } else if 'a' <= c && c <= 'f' {
        (c as int) - 87
    } else {
        (c as int) - 55
    }
}

/// `#RRGGBB` with upper-case digits.
pub open spec fn hex_string(c: Rgb8) -> Seq<char> {
    seq![
        '#',
        hex_upper((c.r / 16) as int),
        hex_upper((c.r % 16) as int),
        hex_upper((c.g / 16) as int),
        hex_upper((c.g % 16) as int),
        hex_upper((c.b / 16) as int),
        hex_upper((c.b % 16) as int),
    ]
}

/// Leading `"0x"` prefixes removed, as many as there are (`str::trim_start_matches("0x")`).
pub open spec fn strip_0x(s: Seq<char>) -> Seq<char>
    decreases s.len(),
{
    if s.len() >= 2 && s[0] == '0' && s[1] == 'x' {
        strip_0x(s.skip(2))
    } else {
        s
    }
}

/// The digits of a hex color: trimmed, `0x` prefixes and then one `#` removed.
pub open spec fn hex_body(s: Seq<char>) -> Seq<char> {
    let h = strip_0x(trim(s));
    if h.len() > 0 && h[0] == '#' {
        h.drop_first()
    } else {
        h
    }
}

/// The six digits a body of three or six digits stands for (short form doubles each digit).
pub open spec fn expand_digits(h: Seq<char>) -> Seq<char> {
    if h.len() == 3 {
        seq![h[0], h[0], h[1], h[1], h[2], h[2]]
    } else {
        h
    }
}

/// The byte written by two hex digits.
pub open spec fn byte_of(hi: char, lo: char) -> u8 {
    (hex_value(hi) * 16 + hex_value(lo)) as u8
}

/// What a hex color string denotes: three or six hex digits, with the optional prefixes.
pub open spec fn spec_parse_hex_color(s: Seq<char>) -> Option<Rgb8> {
    let h = hex_body(s);
    if (h.len() == 6 || h.len() == 3) && (forall|i: int| 0 <= i < h.len() ==> is_hex_digit(#[trigger] h[i])) {
        let e = expand_digits(h);
        Some(Rgb8 { r: byte_of(e[0], e[1]), g: byte_of(e[2], e[3]), b: byte_of(e[4], e[5]) })
    } else {
        None
    }
}

fn hex_digit_char(n: u8) -> (c: char)
    requires
        n < 16,
    ensures
        c == hex_upper(n as int),
{
    if n < 10 {
        (48u8 + n) as char
    } else {
        (55u8 + n) as char
    }
}

fn char_is_hex_digit(c: char) -> (b: bool)
    ensures
        b == is_hex_digit(c),
{
    ('0' <= c && c <= '9') || ('a' <= c && c <= 'f') || ('A' <= c && c <= 'F')
}

fn char_hex_value(c: char) -> (v: u8)
    requires
        is_hex_digit(c),
    ensures
        v == hex_value(c),
        v < 16,
{
    if '0' <= c && c <= '9' {
        (c as u8) - 48
    } else if 'a' <= c && c <= 'f' {
        (c as u8) - 87
    } else {
        (c as u8) - 55
    }
}

/// Convert a color to its hex string (e.g., "#FF8040").
pub fn color_to_hex(color: Rgb8) -> (s: String)
    ensures
        s@ == hex_string(color),
{
    let mut s = String::new();
    push_char(&mut s, '#');
    push_char(&mut s, hex_digit_char(color.r / 16));
    push_char(&mut s, hex_digit_char(color.r % 16));
    push_char(&mut s, hex_digit_char(color.g / 16));
    push_char(&mut s, hex_digit_char(color.g % 16));
    push_char(&mut s, hex_digit_char(color.b / 16));
    push_char(&mut s, hex_digit_char(color.b % 16));
    assert(s@ =~= hex_string(color));
    s
}

proof fn lemma_strip_step(s: Seq<char>, lo: int, hi: int)
    requires
        0 <= lo,
        lo + 2 <= hi <= s.len(),
        s[lo] == '0',
        s[lo + 1] == 'x',
    ensures
        strip_0x(s.subrange(lo, hi)) == strip_0x(s.subrange(lo + 2, hi)),
{
    assert(s.subrange(lo, hi).skip(2) =~= s.subrange(lo + 2, hi));
}

/// Locates the digits of a hex color: returns the range `[lo, hi)` of `v` that `hex_body` keeps.
fn hex_body_range(v: &Vec<char>) -> (r: (usize, usize))
    ensures
        r.0 <= r.1 <= v.len(),
        v@.subrange(r.0 as int, r.1 as int) == hex_body(v@),
{
    let n = v.len();
    let (lo0, hi) = trim_range(v, 0, n);
    let mut lo = lo0;
    assert(v@.subrange(0, n as int) =~= v@);
    assert(trim(v@) == v@.subrange(lo as int, hi as int));
    while hi - lo >= 2 && v[lo] == '0' && v[lo + 1] == 'x'
        invariant
            lo <= hi <= n == v.len(),
            strip_0x(trim(v@)) == strip_0x(v@.subrange(lo as int, hi as int)),
        decreases hi - lo,
    {
        proof {
            lemma_strip_step(v@, lo as int, hi as int);
        }
        lo = lo + 2;
    }
    let ghost h = v@.subrange(lo as int, hi as int);
    assert(strip_0x(trim(v@)) == h);
    if lo < hi && v[lo] == '#' {
        assert(h.drop_first() =~= v@.subrange(lo + 1, hi as int));
        (lo + 1, hi)
    } else {
        (lo, hi)
    }
}

/// Parse a hex color string (e.g., "#FF8040", "FF8040" or "#F84").
pub fn parse_hex_color(value: &str) -> (r: Option<Rgb8>)
    ensures
        r == spec_parse_hex_color(value@),
{
    let v = chars_of(value);
    let (lo, hi) = hex_body_range(&v);
    let ghost h = v@.subrange(lo as int, hi as int);
    let len = hi - lo;
    if len != 6 && len != 3 {
        return None;
    }
    let mut i: usize = lo;
    while i < hi
        invariant
            lo <= i <= hi <= v.len(),
            h == v@.subrange(lo as int, hi as int),
            h == hex_body(value@),
            hi - lo == 6 || hi - lo == 3,
            forall|j: int| 0 <= j < i - lo ==> is_hex_digit(#[trigger] h[j]),
        decreases hi - i,
    {
        if !char_is_hex_digit(v[i]) {
            assert(h[i - lo] == v@[i as int]);
            assert(!is_hex_digit(hex_body(value@)[i - lo]));
            return None;
        }
        assert(h[i - lo] == v@[i as int]);
        i = i + 1;
    }
    let ghost e = expand_digits(h);
    let (d0, d1, d2, d3, d4, d5) = if len == 3 {
        (v[lo], v[lo], v[lo + 1], v[lo + 1], v[lo + 2], v[lo + 2])
    } else {
        (v[lo], v[lo + 1], v[lo + 2], v[lo + 3], v[lo + 4], v[lo + 5])
    };
    assert(h[0] == v@[lo as int] && h[1] == v@[lo + 1] && h[2] == v@[lo + 2]);
    assert(len == 6 ==> h[3] == v@[lo + 3] && h[4] == v@[lo + 4] && h[5] == v@[lo + 5]);
    assert(d0 == e[0] && d1 == e[1] && d2 == e[2] && d3 == e[3] && d4 == e[4] && d5 == e[5]);
    assert(is_hex_digit(h[0]) && is_hex_digit(h[1]) && is_hex_digit(h[2]));
    assert(len == 6 ==> is_hex_digit(h[3]) && is_hex_digit(h[4]) && is_hex_digit(h[5]));
    let r = char_hex_value(d0) * 16 + char_hex_value(d1);
    let g = char_hex_value(d2) * 16 + char_hex_value(d3);
    let b = char_hex_value(d4) * 16 + char_hex_value(d5);
    Some(Rgb8 { r, g, b })
}

proof fn lemma_hex_upper_digit(n: int)
    requires
        0 <= n < 16,
    ensures
        is_hex_digit(hex_upper(n)),
        hex_value(hex_upper(n)) == n,
        !is_whitespace(hex_upper(n)),
        hex_upper(n) != '#',
{
}

/// Formatting a color and parsing the text back gives the same color.
pub proof fn lemma_hex_round_trip(c: Rgb8)
    ensures
        spec_parse_hex_color(hex_string(c)) == Some(c),
{
    let s = hex_string(c);
    lemma_hex_upper_digit((c.r / 16) as int);
    lemma_hex_upper_digit((c.r % 16) as int);
    lemma_hex_upper_digit((c.g / 16) as int);
    lemma_hex_upper_digit((c.g % 16) as int);
    lemma_hex_upper_digit((c.b / 16) as int);
    lemma_hex_upper_digit((c.b % 16) as int);
    assert(trim_start(s) == s);
    assert(trim_end(s) == s);
    assert(strip_0x(s) == s);
    let h = hex_body(s);
    assert(h =~= s.drop_first());
    assert(forall|i: int| 0 <= i < h.len() ==> is_hex_digit(#[trigger] h[i]));
    assert(byte_of(h[0], h[1]) == c.r);
    assert(byte_of(h[2], h[3]) == c.g);
    assert(byte_of(h[4], h[5]) == c.b);
}

/// A body of three or six hex digits.
pub open spec fn is_hex_body(h: Seq<char>) -> bool {
    (h.len() == 6 || h.len() == 3) && forall|i: int| 0 <= i < h.len() ==> is_hex_digit(#[trigger] h[i])
}

proof fn lemma_body_is_its_own_body(h: Seq<char>)
    requires
        is_hex_body(h),
    ensures
        trim(h) == h,
        strip_0x(h) == h,
        hex_body(h) == h,
{
    assert(is_hex_digit(h[0]));
    assert(is_hex_digit(h[h.len() - 1]));
    assert(trim_start(h) == h);
    assert(trim_end(h) == h);
    assert(is_hex_digit(h[1]));
}

/// Hex colour parsing ignores surrounding whitespace, a leading `#` or `0x`, and the case
/// of the digits: each of these spellings of a body of three or six hex digits denotes
/// the same colour as the bare body.
pub proof fn lemma_hex_spellings(h: Seq<char>)
    requires
        is_hex_body(h),
    ensures
        spec_parse_hex_color(seq!['#'] + h) == spec_parse_hex_color(h),
        spec_parse_hex_color(seq!['0', 'x'] + h) == spec_parse_hex_color(h),
        spec_parse_hex_color(seq![' '] + h + seq!['\n']) == spec_parse_hex_color(h),
        spec_parse_hex_color(h.map_values(|c: char| ascii_lower(c))) == spec_parse_hex_color(h),
        spec_parse_hex_color(h) is Some,
{
    lemma_body_is_its_own_body(h);
    let p = seq!['#'] + h;
    assert(is_hex_digit(h[h.len() - 1]));
    assert(trim_start(p) == p);
    assert(p.last() == h.last());
    assert(trim_end(p) == p);
    assert(strip_0x(p) == p);
    assert(p.drop_first() == h);

    let z = seq!['0', 'x'] + h;
    assert(z[0] == '0');
    assert(trim_start(z) == z);
    assert(z.last() == h.last());
    assert(trim_end(z) == z);
    assert(z.skip(2) == h);
    assert(strip_0x(z) == strip_0x(h));

    let w = seq![' '] + h + seq!['\n'];
    assert(w.drop_first() == h + seq!['\n']);
    assert(is_hex_digit(h[0]));
    assert((h + seq!['\n'])[0] == h[0]);
    assert(trim_start(h + seq!['\n']) == h + seq!['\n']);
    assert(trim_start(w) == h + seq!['\n']);
    assert((h + seq!['\n']).drop_last() == h);
    assert(trim_end(h + seq!['\n']) == trim_end(h));

    let l = h.map_values(|c: char| ascii_lower(c));
    assert forall|i: int| 0 <= i < l.len() implies is_hex_digit(#[trigger] l[i]) && hex_value(l[i])
        == hex_value(h[i]) by {
        assert(is_hex_digit(h[i]));
    }
    assert(is_hex_body(l));
    lemma_body_is_its_own_body(l);
    let e = expand_digits(h);
    let el = expand_digits(l);
    assert forall|i: int| 0 <= i < 6 implies hex_value(#[trigger] el[i]) == hex_value(e[i]) by {
        if h.len() == 3 {
            assert(hex_value(l[0]) == hex_value(h[0]));
            assert(hex_value(l[1]) == hex_value(h[1]));
            assert(hex_value(l[2]) == hex_value(h[2]));
        } else {
            assert(hex_value(l[i]) == hex_value(h[i]));
        }
    }
}

} // verus!
