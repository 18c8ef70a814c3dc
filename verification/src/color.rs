//! Color picker text forms: the hexadecimal `RRGGBB` notation and the input
//! mode selector.

use vstd::prelude::*;
use vstd::string::StringSliceAdditionalSpecFns;
use vstd::utf8::is_continuation_byte;

use crate::text::string_from_chars;

verus! {

/// A color as four bytes.
#[derive(Clone, Copy, PartialEq, Eq, Debug)]
pub struct Rgba8 {
    pub r: u8,
    pub g: u8,
    pub b: u8,
    pub a: u8,
}

/// The uppercase hexadecimal digit for a value below sixteen.
pub open spec fn hex_digit_char(d: int) -> char {
    seq!['0', '1', '2', '3', '4', '5', '6', '7', '8', '9', 'A', 'B', 'C', 'D', 'E', 'F'][d]
}

/// A byte as two uppercase hexadecimal digits (`{:02X}`).
pub open spec fn hex_byte_spec(b: u8) -> Seq<char> {
    seq![hex_digit_char(b as int / 16), hex_digit_char(b as int % 16)]
}

/// `RRGGBB` in uppercase hexadecimal.
pub open spec fn hex_rgb_spec(r: u8, g: u8, b: u8) -> Seq<char> {
    hex_byte_spec(r) + hex_byte_spec(g) + hex_byte_spec(b)
}

fn hex_digit(d: u8) -> (c: char)
    requires
        d < 16,
    ensures
        c == hex_digit_char(d as int),
{
    let digits: [char; 16] = [
        '0',
        '1',
        '2',
        '3',
        '4',
        '5',
        '6',
        '7',
        '8',
        '9',
        'A',
        'B',
        'C',
        'D',
        'E',
        'F',
    ];
    assert(digits@ =~= seq![
        '0',
        '1',
        '2',
        '3',
        '4',
        '5',
        '6',
        '7',
        '8',
        '9',
        'A',
        'B',
        'C',
        'D',
        'E',
        'F',
    ]);
    digits[d as usize]
}

/// The color as six uppercase hexadecimal digits `RRGGBB`
/// (`format!("{:02X}{:02X}{:02X}", r, g, b)`).
pub fn format_hex_rgb(r: u8, g: u8, b: u8) -> (s: String)
    ensures
        s@ == hex_rgb_spec(r, g, b),
{
    let mut v: Vec<char> = Vec::new();
    v.push(hex_digit(r / 16));
    v.push(hex_digit(r % 16));
    v.push(hex_digit(g / 16));
    v.push(hex_digit(g % 16));
    v.push(hex_digit(b / 16));
    v.push(hex_digit(b % 16));
    assert(v@ =~= hex_rgb_spec(r, g, b));
    string_from_chars(&v)
}

/// The value of an ASCII hexadecimal digit of either case.
pub open spec fn hex_value_spec(c: u8) -> Option<u8> {
    if 0x30 <= c <= 0x39 {
        Some((c - 0x30) as u8)
    } else if 0x41 <= c <= 0x46 {
        Some((c - 0x41 + 10) as u8)
    } else if 0x61 <= c <= 0x66 {
        Some((c - 0x61 + 10) as u8)
    } else {
        None
    }
}

/// `u8::from_str_radix(s, 16)` for a two-byte `s`: an optional `+` then
/// hexadecimal digits.
pub open spec fn parse_hex_pair_spec(p0: u8, p1: u8) -> Option<u8> {
    if p0 == 0x2B {
        hex_value_spec(p1)
    } else {
        match (hex_value_spec(p0), hex_value_spec(p1)) {
            (Some(hi), Some(lo)) => Some((hi * 16 + lo) as u8),
            _ => None,
        }
    }
}

/// The bytes after the leading `#` characters.
pub open spec fn strip_hashes(s: Seq<u8>) -> Seq<u8>
    decreases s.len(),
{
    if s.len() > 0 && s[0] == 0x23 {
        strip_hashes(s.drop_first())
    } else {
        s
    }
}

/// The color written as `RRGGBB` or `RRGGBBAA` (after any leading `#`), each
/// pair an optional `+` and hexadecimal digits; alpha is opaque when absent.
pub open spec fn parse_hex_spec(bytes: Seq<u8>) -> Option<Rgba8> {
    let h = strip_hashes(bytes);
    if h.len() == 6 || h.len() == 8 {
        match (
            parse_hex_pair_spec(h[0], h[1]),
            parse_hex_pair_spec(h[2], h[3]),
            parse_hex_pair_spec(h[4], h[5]),
        ) {
            (Some(r), Some(g), Some(b)) => {
                if h.len() == 6 {
                    Some(Rgba8 { r, g, b, a: 255 })
                } else {
                    match parse_hex_pair_spec(h[6], h[7]) {
                        Some(a) => Some(Rgba8 { r, g, b, a }),
                        None => None,
                    }
                }
            },
            _ => None,
        }
    } else {
        None
    }
}

/// Whether reading the pairs would slice the text inside a multi-byte
/// character: a pair is cut out only after the pairs before it parsed.
pub open spec fn parse_hex_splits_char(bytes: Seq<u8>) -> bool {
    let h = strip_hashes(bytes);
    &&& (h.len() == 6 || h.len() == 8)
    &&& {
        ||| is_continuation_byte(h[2])
        ||| (parse_hex_pair_spec(h[0], h[1]) is Some && is_continuation_byte(h[4]))
        ||| (h.len() == 8 && parse_hex_pair_spec(h[0], h[1]) is Some && parse_hex_pair_spec(
            h[2],
            h[3],
        ) is Some && is_continuation_byte(h[6]))
    }
}

fn hex_value(c: u8) -> (r: Option<u8>)
    ensures
        r == hex_value_spec(c),
{
    if 0x30 <= c && c <= 0x39 {
        Some(c - 0x30)
    } else if 0x41 <= c && c <= 0x46 {
        Some(c - 0x41 + 10)
    } else if 0x61 <= c && c <= 0x66 {
        Some(c - 0x61 + 10)
    } else {
        None
    }
}

fn parse_hex_pair(p0: u8, p1: u8) -> (r: Option<u8>)
    ensures
        r == parse_hex_pair_spec(p0, p1),
{
    if p0 == 0x2B {
        hex_value(p1)
    } else {
        match (hex_value(p0), hex_value(p1)) {
            (Some(hi), Some(lo)) => Some(hi * 16 + lo),
            _ => None,
        }
    }
}

proof fn lemma_strip_hashes_skip(s: Seq<u8>, k: int)
    requires
        0 <= k <= s.len(),
        forall|i: int| 0 <= i < k ==> s[i] == 0x23,
        k == s.len() || s[k] != 0x23,
    ensures
        strip_hashes(s) == s.skip(k),
    decreases k,
{
    if k == 0 {
        assert(s.skip(0) =~= s);
    } else {
        let t = s.drop_first();
        assert forall|i: int| 0 <= i < k - 1 implies t[i] == 0x23 by {
            assert(t[i] == s[i + 1]);
        }
        lemma_strip_hashes_skip(t, k - 1);
        assert(t.skip(k - 1) =~= s.skip(k));
    }
}

/// Reads a color written in hexadecimal, as the color picker's hex field
/// does: leading `#` are ignored, then `RRGGBB` (opaque) or `RRGGBBAA`.
pub fn parse_hex(hex: &str) -> (r: Option<Rgba8>)
    requires
        !parse_hex_splits_char(hex.spec_bytes()),
    ensures
        r == parse_hex_spec(hex.spec_bytes()),
{
    let bytes = hex.as_bytes();
    let ghost s = hex.spec_bytes();
    let n = bytes.len();
    let mut k: usize = 0;
    while k < n && bytes[k] == 0x23
        invariant
            k <= n,
            n == s.len(),
            bytes@ == s,
            forall|i: int| 0 <= i < k ==> s[i] == 0x23,
        decreases n - k,
    {
        k = k + 1;
    }
    proof {
        lemma_strip_hashes_skip(s, k as int);
    }
    let len = n - k;
    if len != 6 && len != 8 {
        return None;
    }
    let r = match parse_hex_pair(bytes[k], bytes[k + 1]) {
        Some(v) => v,
        None => return None,
    };
    let g = match parse_hex_pair(bytes[k + 2], bytes[k + 3]) {
        Some(v) => v,
        None => return None,
    };
    let b = match parse_hex_pair(bytes[k + 4], bytes[k + 5]) {
        Some(v) => v,
        None => return None,
    };
    if len == 6 {
        return Some(Rgba8 { r, g, b, a: 255 });
    }
    match parse_hex_pair(bytes[k + 6], bytes[k + 7]) {
        Some(a) => Some(Rgba8 { r, g, b, a }),
        None => None,
    }
}

/// The bytes of an ASCII text.
pub open spec fn ascii_bytes(s: Seq<char>) -> Seq<u8> {
    Seq::new(s.len(), |i: int| s[i] as u8)
}

proof fn lemma_hex_byte_roundtrip(b: u8)
    ensures
        parse_hex_pair_spec(hex_byte_spec(b)[0] as u8, hex_byte_spec(b)[1] as u8) == Some(b),
        hex_byte_spec(b)[0] as u8 != 0x23,
{
    lemma_hex_digit_either_case(b as int / 16);
    lemma_hex_digit_either_case(b as int % 16);
}

/// A color printed as `RRGGBB` reads back as the same color, fully opaque.
pub proof fn lemma_hex_roundtrip(r: u8, g: u8, b: u8)
    ensures
        parse_hex_spec(ascii_bytes(hex_rgb_spec(r, g, b))) == Some(Rgba8 { r, g, b, a: 255 }),
        !parse_hex_splits_char(ascii_bytes(hex_rgb_spec(r, g, b))),
{
    let s = hex_rgb_spec(r, g, b);
    let bs = ascii_bytes(s);
    lemma_hex_byte_roundtrip(r);
    lemma_hex_byte_roundtrip(g);
    lemma_hex_byte_roundtrip(b);
    assert(bs[0] == hex_byte_spec(r)[0] as u8);
    lemma_strip_hashes_skip(bs, 0);
    assert(bs.skip(0) =~= bs);
    assert(bs[2] == hex_byte_spec(g)[0] as u8);
    assert(bs[4] == hex_byte_spec(b)[0] as u8);
    lemma_hex_digit_either_case(g as int / 16);
    lemma_hex_digit_either_case(b as int / 16);
}

/// The lowercase hexadecimal digit for a value below sixteen.
pub open spec fn hex_digit_char_lower(d: int) -> char {
    seq!['0', '1', '2', '3', '4', '5', '6', '7', '8', '9', 'a', 'b', 'c', 'd', 'e', 'f'][d]
}

/// A byte as two lowercase hexadecimal digits (`{:02x}`).
pub open spec fn hex_byte_lower_spec(b: u8) -> Seq<char> {
    seq![hex_digit_char_lower(b as int / 16), hex_digit_char_lower(b as int % 16)]
}

/// `rrggbb` in lowercase hexadecimal.
pub open spec fn hex_rgb_lower_spec(r: u8, g: u8, b: u8) -> Seq<char> {
    hex_byte_lower_spec(r) + hex_byte_lower_spec(g) + hex_byte_lower_spec(b)
}

/// A hexadecimal digit has the same value in either case: the uppercase and
/// the lowercase digit for `d` both read as `d`.
pub proof fn lemma_hex_digit_either_case(d: int)
    requires
        0 <= d < 16,
    ensures
        hex_value_spec(hex_digit_char(d) as u8) == Some(d as u8),
        hex_value_spec(hex_digit_char_lower(d) as u8) == Some(d as u8),
{
    if d == 0 {
    } else if d == 1 {
    } else if d == 2 {
    } else if d == 3 {
    } else if d == 4 {
    } else if d == 5 {
    } else if d == 6 {
    } else if d == 7 {
    } else if d == 8 {
    } else if d == 9 {
    } else if d == 10 {
    } else if d == 11 {
    } else if d == 12 {
    } else if d == 13 {
    } else if d == 14 {
    } else {
    }
}

/// The letters `A` to `F` and `a` to `f` are all digits, and a letter's
/// lowercase form has the value of its uppercase form: ten for `A` and `a`
/// up to fifteen for `F` and `f`.
pub proof fn lemma_hex_letter_case_insensitive(c: u8)
    requires
        0x41 <= c <= 0x46,
    ensures
        hex_value_spec(c) == Some((c - 0x41 + 10) as u8),
        hex_value_spec((c + 0x20) as u8) == hex_value_spec(c),
{
}

proof fn lemma_hex_byte_lower_roundtrip(b: u8)
    ensures
        parse_hex_pair_spec(hex_byte_lower_spec(b)[0] as u8, hex_byte_lower_spec(b)[1] as u8)
            == Some(b),
        hex_byte_lower_spec(b)[0] as u8 != 0x23,
{
    lemma_hex_digit_either_case(b as int / 16);
    lemma_hex_digit_either_case(b as int % 16);
}

/// A color written as `rrggbb` in lowercase reads back as the same color,
/// fully opaque, just as its uppercase form does.
pub proof fn lemma_hex_lowercase_roundtrip(r: u8, g: u8, b: u8)
    ensures
        parse_hex_spec(ascii_bytes(hex_rgb_lower_spec(r, g, b))) == Some(
            Rgba8 { r, g, b, a: 255 },
        ),
        !parse_hex_splits_char(ascii_bytes(hex_rgb_lower_spec(r, g, b))),
{
    let s = hex_rgb_lower_spec(r, g, b);
    let bs = ascii_bytes(s);
    lemma_hex_byte_lower_roundtrip(r);
    lemma_hex_byte_lower_roundtrip(g);
    lemma_hex_byte_lower_roundtrip(b);
    assert(bs[0] == hex_byte_lower_spec(r)[0] as u8);
    lemma_strip_hashes_skip(bs, 0);
    assert(bs.skip(0) =~= bs);
    assert(bs[2] == hex_byte_lower_spec(g)[0] as u8);
    assert(bs[4] == hex_byte_lower_spec(b)[0] as u8);
    lemma_hex_digit_either_case(g as int / 16);
    lemma_hex_digit_either_case(b as int / 16);
}

/// How colors are typed into the color picker.
#[derive(Clone, Copy, PartialEq, Eq, Debug)]
pub enum ColorInputMode {
    Hex,
    Rgb,
    Hsb,
}

impl Default for ColorInputMode {
    fn default() -> (m: Self)
        ensures
            m == ColorInputMode::Rgb,
    {
        ColorInputMode::Rgb
    }
}

impl ColorInputMode {
    /// Position of the mode in the selector: Hex, Rgb, Hsb.
    pub fn index(&self) -> (i: usize)
        ensures
            i == match *self {
                ColorInputMode::Hex => 0usize,
                ColorInputMode::Rgb => 1usize,
                ColorInputMode::Hsb => 2usize,
            },
    {
        match self {
            ColorInputMode::Hex => 0,
            ColorInputMode::Rgb => 1,
            ColorInputMode::Hsb => 2,
        }
    }

    /// The mode at a selector position; any unknown position means Rgb.
    pub fn from_index(index: usize) -> (m: Self)
        ensures
            m == (if index == 0 {
                ColorInputMode::Hex
            } else if index == 2 {
                ColorInputMode::Hsb
            } else {
                ColorInputMode::Rgb
            }),
    {
        match index {
            0 => ColorInputMode::Hex,
            2 => ColorInputMode::Hsb,
            _ => ColorInputMode::Rgb,
        }
    }
}

/// Reading back a mode's selector position gives the same mode.
pub proof fn lemma_input_mode_index_roundtrip(m: ColorInputMode)
    ensures
        (if (match m {
            ColorInputMode::Hex => 0usize,
            ColorInputMode::Rgb => 1usize,
            ColorInputMode::Hsb => 2usize,
        }) == 0 {
            ColorInputMode::Hex
        } else if (match m {
            ColorInputMode::Hex => 0usize,
            ColorInputMode::Rgb => 1usize,
            ColorInputMode::Hsb => 2usize,
        }) == 2 {
            ColorInputMode::Hsb
        } else {
            ColorInputMode::Rgb
        }) == m,
{
}

} // verus!
