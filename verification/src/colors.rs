//! Color text: `#RRGGBB` notation, named colors, ANSI 256-color indexes, and
//! the red, green and blue channels of a color.
use vstd::prelude::*;

use crate::text::{
    ascii_upper, chars_of, is_ascii_hex, is_hex_digit, lower_chars, lower_seq, push_char, same_text,
    string_from, string_of, trim, trim_chars, upper_chars, upper_seq,
};
use vstd::utf8::{encode_utf8, is_char_boundary};

verus! {

/// `normalize_hex`: trimmed, upper-cased, with a `#` in front unless it
/// already starts with one.
pub open spec fn normalize_hex_spec(v: Seq<char>) -> Seq<char> {
    let t = trim(v);
    if t.len() > 0 && t[0] == '#' {
        upper_seq(t)
    } else {
        seq!['#'] + upper_seq(t)
    }
}

/// `is_valid_hex`: seven bytes, a `#`, then hexadecimal digits. (The digits
/// are ASCII, so seven bytes are seven characters.)
pub open spec fn is_valid_hex_spec(s: Seq<char>) -> bool {
    &&& s.len() == 7
    &&& s[0] == '#'
    &&& forall|i: int| 1 <= i < s.len() ==> #[trigger] is_ascii_hex(s[i])
}

/// Whether a byte is an ASCII hexadecimal digit.
pub open spec fn is_hex_byte(b: u8) -> bool {
    (48 <= b && b <= 57) || (65 <= b && b <= 70) || (97 <= b && b <= 102)
}

/// The value of an ASCII hexadecimal digit byte.
pub open spec fn hex_byte_value(b: u8) -> u8 {
    if 48 <= b && b <= 57 {
        (b - 48) as u8
    } else if 65 <= b && b <= 70 {
        (b - 55) as u8
    } else {
        (b - 87) as u8
    }
}

/// `u8::from_str_radix(.., 16)` on a two-byte string: two hexadecimal
/// digits, or a `+` sign and one digit; anything else is an error.
pub open spec fn parse_hex_pair(b1: u8, b2: u8) -> Option<u8> {
    if b1 == 43 {
        if is_hex_byte(b2) {
            Some(hex_byte_value(b2))
        } else {
            None
        }
    } else if is_hex_byte(b1) && is_hex_byte(b2) {
        Some((16 * hex_byte_value(b1) + hex_byte_value(b2)) as u8)
    } else {
        None
    }
}

/// [`parse_hex_pair`], with an error read as zero (`unwrap_or_default`).
pub open spec fn hex_pair_or_zero(b1: u8, b2: u8) -> u8 {
    match parse_hex_pair(b1, b2) {
        Some(v) => v,
        None => 0,
    }
}

/// The bytes of the normalized form of a color text.
pub open spec fn normalized_bytes(hex: Seq<char>) -> Seq<u8> {
    encode_utf8(normalize_hex_spec(hex))
}

/// Whether `hex_to_rgb` can slice the channel pairs out of the normalized
/// text: at least seven bytes, and byte offsets 1, 3, 5 and 7 on character
/// boundaries. On other texts slicing panics.
pub open spec fn channels_sliceable(hex: Seq<char>) -> bool {
    let b = normalized_bytes(hex);
    &&& b.len() >= 7
    &&& is_char_boundary(b, 1)
    &&& is_char_boundary(b, 3)
    &&& is_char_boundary(b, 5)
    &&& is_char_boundary(b, 7)
}

/// `hex_to_rgb`: the three channels of the normalized text, each zero when
/// its pair does not parse.
pub open spec fn hex_to_rgb_spec(hex: Seq<char>) -> (u8, u8, u8) {
    let b = normalized_bytes(hex);
    (hex_pair_or_zero(b[1], b[2]), hex_pair_or_zero(b[3], b[4]), hex_pair_or_zero(b[5], b[6]))
}

/// The upper-case hexadecimal digit for a value below sixteen.
pub open spec fn hex_digit_char(d: u8) -> char {
    if d < 10 {
        ((48 + d) as u32) as char
    } else {
        ((55 + d) as u32) as char
    }
}

/// A byte as two upper-case hexadecimal digits.
pub open spec fn byte_hex(b: u8) -> Seq<char> {
    seq![hex_digit_char(b / 16), hex_digit_char(b % 16)]
}

/// `#RRGGBB` for three channels, in upper case.
pub open spec fn rgb_hex(c: (u8, u8, u8)) -> Seq<char> {
    seq!['#'] + byte_hex(c.0) + byte_hex(c.1) + byte_hex(c.2)
}

/// The six levels of the xterm 6x6x6 color cube.
pub open spec fn cube_level(i: u8) -> u8 {
    if i == 0 {
        0
    } else if i == 1 {
        95
    } else if i == 2 {
        135
    } else if i == 3 {
        175
    } else if i == 4 {
        215
    } else {
        255
    }
}

/// The sixteen system colors of the xterm palette.
pub open spec fn system_color(i: u8) -> (u8, u8, u8) {
    if i == 0 {
        (0, 0, 0)
    } else if i == 1 {
        (128, 0, 0)
    } else if i == 2 {
        (0, 128, 0)
    } else if i == 3 {
        (128, 128, 0)
    } else if i == 4 {
        (0, 0, 128)
    } else if i == 5 {
        (128, 0, 128)
    } else if i == 6 {
        (0, 128, 128)
    } else if i == 7 {
        (192, 192, 192)
    } else if i == 8 {
        (128, 128, 128)
    } else if i == 9 {
        (255, 0, 0)
    } else if i == 10 {
        (0, 255, 0)
    } else if i == 11 {
        (255, 255, 0)
    } else if i == 12 {
        (0, 0, 255)
    } else if i == 13 {
        (255, 0, 255)
    } else if i == 14 {
        (0, 255, 255)
    } else {
        (255, 255, 255)
    }
}

/// The channels of an xterm 256-color index: sixteen system colors, the
/// 6x6x6 cube, then 24 grays from 8 in steps of 10.
pub open spec fn ansi256_rgb(index: u8) -> (u8, u8, u8) {
    if index < 16 {
        system_color(index)
    } else if index <= 231 {
        let i = (index - 16) as u8;
        (cube_level(i / 36), cube_level(((i % 36) / 6) as u8), cube_level(i % 6))
    } else {
        let level = (8 + (index - 232) * 10) as u8;
        (level, level, level)
    }
}

/// The named colors that color inputs accept.
pub open spec fn named_color(v: Seq<char>) -> Option<Seq<char>> {
    if v == "black"@ {
        Some("#000000"@)
    } else if v == "red"@ {
        Some("#FF0000"@)
    } else if v == "green"@ {
        Some("#00FF00"@)
    } else if v == "yellow"@ {
        Some("#FFFF00"@)
    } else if v == "blue"@ {
        Some("#0000FF"@)
    } else if v == "magenta"@ {
        Some("#FF00FF"@)
    } else if v == "cyan"@ {
        Some("#00FFFF"@)
    } else if v == "white"@ {
        Some("#FFFFFF"@)
    } else if v == "gray"@ || v == "grey"@ {
        Some("#808080"@)
    } else if v == "orange"@ {
        Some("#FFA500"@)
    } else if v == "purple"@ {
        Some("#800080"@)
    } else if v == "pink"@ {
        Some("#FFC0CB"@)
    } else {
        None
    }
}

/// Whether every character is an ASCII decimal digit.
pub open spec fn all_decimal(d: Seq<char>) -> bool {
    forall|i: int| 0 <= i < d.len() ==> '0' <= #[trigger] d[i] && d[i] <= '9'
}

/// The value of a string of decimal digits.
pub open spec fn decimal_value(d: Seq<char>) -> nat
    decreases d.len(),
{
    if d.len() == 0 {
        0
    } else {
        decimal_value(d.drop_last()) * 10 + ((d.last() as u32) - 48) as nat
    }
}

/// `str::parse::<u8>`: an optional `+`, then at least one decimal digit,
/// with a value of at most 255.
pub open spec fn parse_u8_spec(v: Seq<char>) -> Option<u8> {
    let d = if v.len() > 0 && v[0] == '+' {
        v.drop_first()
    } else {
        v
    };
    if d.len() > 0 && all_decimal(d) && decimal_value(d) <= 255 {
        Some(decimal_value(d) as u8)
    } else {
        None
    }
}

/// Six hexadecimal digits: an `RRGGBB` color written without its `#`.
pub open spec fn is_bare_hex(v: Seq<char>) -> bool {
    &&& v.len() == 6
    &&& forall|i: int| 0 <= i < v.len() ==> #[trigger] is_ascii_hex(v[i])
}

/// `parse_color_input`: a named color; else six hexadecimal digits, read as
/// `RRGGBB` with `#` added (so `000001` is `#000001`, not a palette index);
/// else an ANSI 256-color index; else a hexadecimal color (normalized); else
/// nothing.
pub open spec fn parse_color_input_spec(v: Seq<char>) -> Option<Seq<char>> {
    match named_color(v) {
        Some(c) => Some(c),
        None => if is_bare_hex(v) {
            Some(seq!['#'] + upper_seq(v))
        } else {
            match parse_u8_spec(v) {
                Some(i) => Some(rgb_hex(ansi256_rgb(i))),
                None => if is_valid_hex_spec(normalize_hex_spec(v)) {
                    Some(normalize_hex_spec(v))
                } else {
                    None
                },
            }
        },
    }
}

// ---------------------------------------------------------------------------
// Executable functions
// ---------------------------------------------------------------------------
/// Trims a color text, upper-cases it and puts a `#` in front unless one is
/// there already.
pub fn normalize_hex(value: &str) -> (r: String)
    ensures
        r@ == normalize_hex_spec(value@),
{
    let cs = chars_of(value);
    let t = trim_chars(&cs);
    let up = upper_chars(&t);
    if t.len() > 0 && t[0] == '#' {
        string_of(&up)
    } else {
        let mut out: Vec<char> = Vec::new();
        out.push('#');
        let mut i: usize = 0;
        while i < up.len()
            invariant
                i <= up.len(),
                out@ == seq!['#'] + up@.take(i as int),
            decreases up.len() - i,
        {
            out.push(up[i]);
            assert(out@ =~= seq!['#'] + up@.take(i + 1));
            i = i + 1;
        }
        assert(up@.take(up.len() as int) =~= up@);
        string_of(&out)
    }
}

/// Whether a text is a `#RRGGBB` color.
pub fn is_valid_hex(value: &str) -> (r: bool)
    ensures
        r == is_valid_hex_spec(value@),
{
    let cs = chars_of(value);
    if cs.len() != 7 || cs[0] != '#' {
        return false;
    }
    let mut i: usize = 1;
    while i < cs.len()
        invariant
            1 <= i <= cs.len(),
            cs@ == value@,
            forall|j: int| 1 <= j < i ==> #[trigger] is_ascii_hex(cs@[j]),
        decreases cs.len() - i,
    {
        if !is_hex_digit(cs[i]) {
            return false;
        }
        i = i + 1;
    }
    true
}

fn hex_byte(b: u8) -> (r: bool)
    ensures
        r == is_hex_byte(b),
{
    (48 <= b && b <= 57) || (65 <= b && b <= 70) || (97 <= b && b <= 102)
}

fn hex_byte_val(b: u8) -> (r: u8)
    requires
        is_hex_byte(b),
    ensures
        r == hex_byte_value(b),
        r < 16,
{
    if 48 <= b && b <= 57 {
        b - 48
    } else if 65 <= b && b <= 70 {
        b - 55
    } else {
        b - 87
    }
}

/// `u8::from_str_radix(.., 16)` on a two-byte string.
pub fn parse_pair(b1: u8, b2: u8) -> (r: Option<u8>)
    ensures
        r == parse_hex_pair(b1, b2),
{
    if b1 == 43 {
        if hex_byte(b2) {
            Some(hex_byte_val(b2))
        } else {
            None
        }
    } else if hex_byte(b1) && hex_byte(b2) {
        Some(16 * hex_byte_val(b1) + hex_byte_val(b2))
    } else {
        None
    }
}

fn pair_or_zero(b1: u8, b2: u8) -> (r: u8)
    ensures
        r == hex_pair_or_zero(b1, b2),
{
    match parse_pair(b1, b2) {
        Some(v) => v,
        None => 0,
    }
}

/// Whether [`hex_to_rgb`] can take a color text apart (see
/// [`channels_sliceable`]).
pub fn channels_readable(hex: &str) -> (r: bool)
    ensures
        r == channels_sliceable(hex@),
{
    let value = normalize_hex(hex);
    let s = value.as_str();
    s.as_bytes().len() >= 7 && s.is_char_boundary(1) && s.is_char_boundary(3) && s.is_char_boundary(5)
        && s.is_char_boundary(7)
}

/// The red, green and blue channels of a color text, after normalizing it;
/// a pair that does not parse reads as zero.
pub fn hex_to_rgb(hex: &str) -> (r: (u8, u8, u8))
    requires
        channels_sliceable(hex@),
    ensures
        r == hex_to_rgb_spec(hex@),
{
    let value = normalize_hex(hex);
    let b = value.as_str().as_bytes();
    (pair_or_zero(b[1], b[2]), pair_or_zero(b[3], b[4]), pair_or_zero(b[5], b[6]))
}

fn hex_digit(d: u8) -> (c: char)
    requires
        d < 16,
    ensures
        c == hex_digit_char(d),
{
    if d < 10 {
        (48 + d) as char
    } else {
        (55 + d) as char
    }
}

/// `#RRGGBB` for three channels, in upper case.
pub fn rgb_to_hex(rgb: (u8, u8, u8)) -> (r: String)
    ensures
        r@ == rgb_hex(rgb),
{
    let (red, green, blue) = rgb;
    let mut out = String::new();
    push_char(&mut out, '#');
    push_char(&mut out, hex_digit(red / 16));
    push_char(&mut out, hex_digit(red % 16));
    push_char(&mut out, hex_digit(green / 16));
    push_char(&mut out, hex_digit(green % 16));
    push_char(&mut out, hex_digit(blue / 16));
    push_char(&mut out, hex_digit(blue % 16));
    assert(out@ =~= rgb_hex(rgb));
    out
}

/// Trims a color input and lower-cases it.
pub fn normalize_color_input(value: &str) -> (r: String)
    ensures
        r@ == lower_seq(trim(value@)),
{
    let cs = chars_of(value);
    let t = trim_chars(&cs);
    let l = lower_chars(&t);
    string_of(&l)
}

fn cube(i: u8) -> (r: u8)
    requires
        i < 6,
    ensures
        r == cube_level(i),
{
    let s: [u8; 6] = [0u8, 95, 135, 175, 215, 255];
    s[i as usize]
}

fn system(i: u8) -> (r: (u8, u8, u8))
    requires
        i < 16,
    ensures
        r == system_color(i),
{
    let base: [(u8, u8, u8); 16] = [
        (0, 0, 0),
        (128, 0, 0),
        (0, 128, 0),
        (128, 128, 0),
        (0, 0, 128),
        (128, 0, 128),
        (0, 128, 128),
        (192, 192, 192),
        (128, 128, 128),
        (255, 0, 0),
        (0, 255, 0),
        (255, 255, 0),
        (0, 0, 255),
        (255, 0, 255),
        (0, 255, 255),
        (255, 255, 255),
    ];
    base[i as usize]
}

/// `#RRGGBB` for an xterm 256-color index.
pub fn ansi256_to_hex(index: u8) -> (r: String)
    ensures
        r@ == rgb_hex(ansi256_rgb(index)),
{
    let rgb = if index < 16 {
        system(index)
    } else if index <= 231 {
        let i = index - 16;
        (cube(i / 36), cube((i % 36) / 6), cube(i % 6))
    } else {
        let level = 8 + (index - 232) * 10;
        (level, level, level)
    };
    rgb_to_hex(rgb)
}

proof fn lemma_decimal_value_grows(d: Seq<char>, k: int)
    requires
        0 <= k < d.len(),
        all_decimal(d),
    ensures
        decimal_value(d.take(k + 1)) >= decimal_value(d.take(k)),
        decimal_value(d.take(k + 1)) == decimal_value(d.take(k)) * 10 + ((d[k] as u32)
            - 48) as nat,
{
    assert(d.take(k + 1).drop_last() =~= d.take(k));
    assert('0' <= d[k]);
}

/// `str::parse::<u8>`.
pub fn parse_u8(value: &str) -> (r: Option<u8>)
    ensures
        r == parse_u8_spec(value@),
{
    let cs = chars_of(value);
    let mut start: usize = 0;
    if cs.len() > 0 && cs[0] == '+' {
        start = 1;
    }
    let ghost d = if value@.len() > 0 && value@[0] == '+' {
        value@.drop_first()
    } else {
        value@
    };
    assert(d =~= cs@.skip(start as int));
    if start >= cs.len() {
        return None;
    }
    let mut acc: u32 = 0;
    let mut i: usize = start;
    while i < cs.len()
        invariant
            start <= i <= cs.len(),
            d == cs@.skip(start as int),
            d == (if value@.len() > 0 && value@[0] == '+' {
                value@.drop_first()
            } else {
                value@
            }),
            forall|j: int| 0 <= j < i - start ==> '0' <= #[trigger] d[j] && d[j] <= '9',
            acc as nat == decimal_value(d.take(i - start)),
            acc <= 255,
        decreases cs.len() - i,
    {
        let c = cs[i];
        if c < '0' || c > '9' {
            assert(!all_decimal(d)) by {
                assert(d[i - start] == c);
            }
            return None;
        }
        let dv: u32 = (c as u32) - 48;
        proof {
            assert(d[i - start] == c);
            assert(d.take(i - start + 1).drop_last() =~= d.take(i - start));
        }
        let next = acc * 10 + dv;
        if next > 255 {
            proof {
                assert(decimal_value(d.take(i - start + 1)) == next);
                // Later digits only make the value larger.
                if all_decimal(d) {
                    lemma_decimal_value_monotone(d, i - start + 1);
                    assert(d.take(d.len() as int) =~= d);
                }
            }
            return None;
        }
        acc = next;
        i = i + 1;
    }
    assert(d.take(d.len() as int) =~= d);
    Some(acc as u8)
}

proof fn lemma_decimal_value_monotone(d: Seq<char>, k: int)
    requires
        0 <= k <= d.len(),
        all_decimal(d),
    ensures
        decimal_value(d) >= decimal_value(d.take(k)),
    decreases d.len() - k,
{
    if k < d.len() {
        lemma_decimal_value_grows(d, k);
        lemma_decimal_value_monotone(d, k + 1);
    } else {
        assert(d.take(k) =~= d);
    }
}

fn named(value: &str) -> (r: Option<&'static str>)
    ensures
        match named_color(value@) {
            Some(c) => r matches Some(x) && x@ == c,
            None => r is None,
        },
{
    if same_text(value, "black") {
        Some("#000000")
    } else if same_text(value, "red") {
        Some("#FF0000")
    } else if same_text(value, "green") {
        Some("#00FF00")
    } else if same_text(value, "yellow") {
        Some("#FFFF00")
    } else if same_text(value, "blue") {
        Some("#0000FF")
    } else if same_text(value, "magenta") {
        Some("#FF00FF")
    } else if same_text(value, "cyan") {
        Some("#00FFFF")
    } else if same_text(value, "white") {
        Some("#FFFFFF")
    } else if same_text(value, "gray") || same_text(value, "grey") {
        Some("#808080")
    } else if same_text(value, "orange") {
        Some("#FFA500")
    } else if same_text(value, "purple") {
        Some("#800080")
    } else if same_text(value, "pink") {
        Some("#FFC0CB")
    } else {
        None
    }
}

/// `#` and the upper case of six hexadecimal digits, or none when the text
/// is not six hexadecimal digits.
fn bare_hex(value: &str) -> (r: Option<String>)
    ensures
        is_bare_hex(value@) ==> (r matches Some(x) && x@ == seq!['#'] + upper_seq(value@)),
        !is_bare_hex(value@) ==> r is None,
{
    let cs = chars_of(value);
    if cs.len() != 6 {
        return None;
    }
    let mut i: usize = 0;
    while i < 6
        invariant
            i <= 6,
            cs@ == value@,
            cs.len() == 6,
            forall|j: int| 0 <= j < i ==> #[trigger] is_ascii_hex(cs@[j]),
        decreases 6 - i,
    {
        if !is_hex_digit(cs[i]) {
            return None;
        }
        i = i + 1;
    }
    let up = upper_chars(&cs);
    let mut out: Vec<char> = Vec::new();
    out.push('#');
    let mut k: usize = 0;
    while k < 6
        invariant
            k <= 6,
            up@ == upper_seq(value@),
            up.len() == 6,
            out@ == seq!['#'] + up@.take(k as int),
        decreases 6 - k,
    {
        out.push(up[k]);
        assert(up@.take(k + 1) =~= up@.take(k as int).push(up@[k as int]));
        k = k + 1;
    }
    assert(up@.take(6) =~= up@);
    Some(string_of(&out))
}

/// Reads a color input: a named color, six hexadecimal digits (`RRGGBB`), an
/// ANSI 256-color index (`0`-`255`), or a hexadecimal color with `#`; the
/// result is `#RRGGBB`.
pub fn parse_color_input(value: &str) -> (r: Option<String>)
    ensures
        match parse_color_input_spec(value@) {
            Some(c) => r matches Some(x) && x@ == c,
            None => r is None,
        },
{
    if let Some(color) = named(value) {
        return Some(String::from_str(color));
    }
    if let Some(hex) = bare_hex(value) {
        return Some(hex);
    }
    if let Some(index) = parse_u8(value) {
        return Some(ansi256_to_hex(index));
    }
    let hex_candidate = normalize_hex(value);
    if is_valid_hex(hex_candidate.as_str()) {
        return Some(hex_candidate);
    }
    None
}


/// `str::trim_start_matches('#')`: drops every leading `#`.
pub open spec fn strip_hashes(s: Seq<char>) -> Seq<char>
    decreases s.len(),
{
    if s.len() > 0 && s[0] == '#' {
        strip_hashes(s.drop_first())
    } else {
        s
    }
}

/// Whether `parse_color` can slice the channel pairs out of the text: when
/// it has six bytes after the leading `#`s, offsets 2 and 4 fall on
/// character boundaries. On other texts slicing panics.
pub open spec fn screen_color_sliceable(hex: Seq<char>) -> bool {
    let b = encode_utf8(strip_hashes(hex));
    b.len() == 6 ==> is_char_boundary(b, 2) && is_char_boundary(b, 4)
}

/// `parse_color`: no color (the terminal default) unless the text has six
/// bytes after its leading `#`s; then the three channels, each zero when its
/// pair does not parse.
pub open spec fn screen_color_spec(hex: Seq<char>) -> Option<(u8, u8, u8)> {
    let b = encode_utf8(strip_hashes(hex));
    if b.len() != 6 {
        None
    } else {
        Some((hex_pair_or_zero(b[0], b[1]), hex_pair_or_zero(b[2], b[3]), hex_pair_or_zero(b[4], b[5])))
    }
}

/// Whether [`parse_color`] can take a color text apart (see
/// [`screen_color_sliceable`]).
pub fn parse_color_readable(hex: &str) -> (r: bool)
    ensures
        r == screen_color_sliceable(hex@),
{
    let cs = chars_of(hex);
    let mut k: usize = 0;
    assert(cs@.skip(0) =~= cs@);
    while k < cs.len() && cs[k] == '#'
        invariant
            k <= cs.len(),
            cs@ == hex@,
            strip_hashes(cs@.skip(k as int)) == strip_hashes(hex@),
        decreases cs.len() - k,
    {
        assert(cs@.skip(k as int).drop_first() =~= cs@.skip(k + 1));
        k = k + 1;
    }
    let rest = string_from(&cs, k);
    let s = rest.as_str();
    s.as_bytes().len() != 6 || (s.is_char_boundary(2) && s.is_char_boundary(4))
}

/// The channels of a color for drawing on screen: `None` stands for the
/// terminal's default color.
pub fn parse_color(hex: &str) -> (r: Option<(u8, u8, u8)>)
    requires
        screen_color_sliceable(hex@),
    ensures
        r == screen_color_spec(hex@),
{
    let cs = chars_of(hex);
    let mut k: usize = 0;
    assert(cs@.skip(0) =~= cs@);
    while k < cs.len() && cs[k] == '#'
        invariant
            k <= cs.len(),
            cs@ == hex@,
            strip_hashes(cs@.skip(k as int)) == strip_hashes(hex@),
        decreases cs.len() - k,
    {
        assert(cs@.skip(k as int).drop_first() =~= cs@.skip(k + 1));
        k = k + 1;
    }
    let rest = string_from(&cs, k);
    let b = rest.as_str().as_bytes();
    if b.len() != 6 {
        return None;
    }
    Some((pair_or_zero(b[0], b[1]), pair_or_zero(b[2], b[3]), pair_or_zero(b[4], b[5])))
}

// ---------------------------------------------------------------------------
// Laws
// ---------------------------------------------------------------------------
/// Text that neither starts nor ends with whitespace is its own trim.
proof fn lemma_trim_noop(s: Seq<char>)
    requires
        s.len() > 0 ==> !crate::text::is_whitespace(s[0]) && !crate::text::is_whitespace(s.last()),
    ensures
        trim(s) == s,
{
}

/// Text without lower-case ASCII letters is its own upper case.
proof fn lemma_upper_noop(s: Seq<char>)
    requires
        forall|i: int| 0 <= i < s.len() ==> !('a' <= #[trigger] s[i] && s[i] <= 'z'),
    ensures
        upper_seq(s) == s,
{
    assert(upper_seq(s) =~= s);
}

/// The characters of `#RRGGBB` for three channels.
pub(crate) proof fn lemma_rgb_hex_chars(c: (u8, u8, u8))
    ensures
        rgb_hex(c).len() == 7,
        rgb_hex(c)[0] == '#',
        forall|i: int|
            1 <= i < 7 ==> (('0' <= #[trigger] rgb_hex(c)[i] && rgb_hex(c)[i] <= '9') || ('A'
                <= rgb_hex(c)[i] && rgb_hex(c)[i] <= 'F')),
{
}

/// `#RRGGBB` in upper case is already normalized and valid.
proof fn lemma_rgb_hex_normal(c: (u8, u8, u8))
    ensures
        normalize_hex_spec(rgb_hex(c)) == rgb_hex(c),
        is_valid_hex_spec(rgb_hex(c)),
{
    let h = rgb_hex(c);
    lemma_rgb_hex_chars(c);
    assert(h.last() == h[6]);
    lemma_trim_noop(h);
    lemma_upper_noop(h);
}

pub(crate) proof fn lemma_hex_digit_byte(d: u8)
    requires
        d < 16,
    ensures
        is_hex_byte(hex_digit_char(d) as u8),
        hex_byte_value(hex_digit_char(d) as u8) == d,
        (hex_digit_char(d) as u8) != 43,
{
}

/// Reading back the channels of `#RRGGBB` gives the channels it was
/// written from, and the text can always be taken apart.
pub proof fn law_rgb_hex_roundtrip(c: (u8, u8, u8))
    ensures
        channels_sliceable(rgb_hex(c)),
        hex_to_rgb_spec(rgb_hex(c)) == c,
{
    let h = rgb_hex(c);
    lemma_rgb_hex_normal(c);
    lemma_rgb_hex_chars(c);
    assert(vstd::utf8::is_ascii_chars(h));
    vstd::utf8::is_ascii_chars_encode_utf8(h);
    let b = encode_utf8(h);
    vstd::utf8::encode_utf8_valid_utf8(h);
    vstd::utf8::is_char_boundary_start_end_of_seq(b);
    assert(b.len() == 7);
    assert forall|i: int| 0 <= i < 7 implies #[trigger] b[i] == h[i] as u8 by {}
    vstd::utf8::is_char_boundary_iff_not_is_continuation_byte(b, 1);
    vstd::utf8::is_char_boundary_iff_not_is_continuation_byte(b, 3);
    vstd::utf8::is_char_boundary_iff_not_is_continuation_byte(b, 5);
    lemma_hex_digit_byte(c.0 / 16);
    lemma_hex_digit_byte(c.0 % 16);
    lemma_hex_digit_byte(c.1 / 16);
    lemma_hex_digit_byte(c.1 % 16);
    lemma_hex_digit_byte(c.2 / 16);
    lemma_hex_digit_byte(c.2 % 16);
    assert(h[1] == hex_digit_char(c.0 / 16) && h[2] == hex_digit_char(c.0 % 16));
    assert(h[3] == hex_digit_char(c.1 / 16) && h[4] == hex_digit_char(c.1 % 16));
    assert(h[5] == hex_digit_char(c.2 / 16) && h[6] == hex_digit_char(c.2 % 16));
}

/// Normalizing a color text twice is the same as normalizing it once.
pub proof fn law_normalize_hex_idempotent(v: Seq<char>)
    ensures
        normalize_hex_spec(normalize_hex_spec(v)) == normalize_hex_spec(v),
{
    let t = trim(v);
    crate::text::lemma_trim_end_is_prefix(v);
    crate::text::lemma_trim_start_is_suffix(crate::text::trim_end(v));
    let n = normalize_hex_spec(v);
    let u = upper_seq(t);
    assert forall|i: int| 0 <= i < u.len() implies crate::text::is_whitespace(#[trigger] u[i])
        == crate::text::is_whitespace(t[i]) && ascii_upper(u[i]) == u[i] by {}
    if t.len() > 0 && t[0] == '#' {
        assert(n == u);
        lemma_trim_noop(u);
    } else {
        assert(n =~= seq!['#'] + u);
        if u.len() > 0 {
            assert(n.last() == u.last());
        }
        lemma_trim_noop(n);
    }
    assert(upper_seq(n) =~= n);
}

/// Every color that a color input is read as is a valid `#RRGGBB` color.
pub proof fn law_parsed_colors_are_valid(v: Seq<char>)
    ensures
        parse_color_input_spec(v) matches Some(c) ==> is_valid_hex_spec(c),
{
    reveal_strlit("#000000");
    reveal_strlit("#FF0000");
    reveal_strlit("#00FF00");
    reveal_strlit("#FFFF00");
    reveal_strlit("#0000FF");
    reveal_strlit("#FF00FF");
    reveal_strlit("#00FFFF");
    reveal_strlit("#FFFFFF");
    reveal_strlit("#808080");
    reveal_strlit("#FFA500");
    reveal_strlit("#800080");
    reveal_strlit("#FFC0CB");
    if named_color(v) is None && is_bare_hex(v) {
        let c = seq!['#'] + upper_seq(v);
        assert forall|i: int| 1 <= i < c.len() implies #[trigger] is_ascii_hex(c[i]) by {
            assert(c[i] == ascii_upper(v[i - 1]));
            assert(is_ascii_hex(v[i - 1]));
        }
    } else if let Some(i) = parse_u8_spec(v) {
        lemma_rgb_hex_normal(ansi256_rgb(i));
    }
}

/// An upper-case hexadecimal digit, as a byte, is a hexadecimal digit whose
/// value is written back as the same character.
proof fn lemma_upper_hex_digit(c: char)
    requires
        ('0' <= c && c <= '9') || ('A' <= c && c <= 'F'),
    ensures
        is_hex_byte(c as u8),
        (c as u8) != 43,
        hex_byte_value(c as u8) < 16,
        hex_digit_char(hex_byte_value(c as u8)) == c,
{
}

/// Two upper-case hexadecimal digits read as a byte and written back are
/// the same two digits.
proof fn lemma_pair_reads_back(c1: char, c2: char)
    requires
        ('0' <= c1 && c1 <= '9') || ('A' <= c1 && c1 <= 'F'),
        ('0' <= c2 && c2 <= '9') || ('A' <= c2 && c2 <= 'F'),
    ensures
        byte_hex(hex_pair_or_zero(c1 as u8, c2 as u8)) == seq![c1, c2],
{
    lemma_upper_hex_digit(c1);
    lemma_upper_hex_digit(c2);
    let a = hex_byte_value(c1 as u8);
    let b = hex_byte_value(c2 as u8);
    let v = hex_pair_or_zero(c1 as u8, c2 as u8);
    assert(v == 16 * a + b);
    assert((16 * a + b) / 16 == a && (16 * a + b) % 16 == b) by (nonlinear_arith)
        requires
            a < 16,
            b < 16,
    ;
    assert(byte_hex(v) =~= seq![c1, c2]);
}

/// A color text whose normalized form is a valid `#RRGGBB` can be taken
/// apart, and writing its channels back gives that normalized form.
pub proof fn law_hex_reads_back(h: Seq<char>)
    requires
        is_valid_hex_spec(normalize_hex_spec(h)),
    ensures
        channels_sliceable(h),
        rgb_hex(hex_to_rgb_spec(h)) == normalize_hex_spec(h),
{
    let n = normalize_hex_spec(h);
    let t = trim(h);
    assert forall|i: int| 1 <= i < 7 implies ('0' <= #[trigger] n[i] && n[i] <= '9') || ('A'
        <= n[i] && n[i] <= 'F') by {
        assert(is_ascii_hex(n[i]));
        if t.len() > 0 && t[0] == '#' {
            assert(n[i] == ascii_upper(t[i]));
        } else {
            assert(n[i] == ascii_upper(t[i - 1]));
        }
    }
    assert(vstd::utf8::is_ascii_chars(n));
    vstd::utf8::is_ascii_chars_encode_utf8(n);
    let b = encode_utf8(n);
    vstd::utf8::encode_utf8_valid_utf8(n);
    vstd::utf8::is_char_boundary_start_end_of_seq(b);
    assert(b.len() == 7);
    assert forall|i: int| 0 <= i < 7 implies #[trigger] b[i] == n[i] as u8 by {}
    vstd::utf8::is_char_boundary_iff_not_is_continuation_byte(b, 1);
    vstd::utf8::is_char_boundary_iff_not_is_continuation_byte(b, 3);
    vstd::utf8::is_char_boundary_iff_not_is_continuation_byte(b, 5);
    lemma_pair_reads_back(n[1], n[2]);
    lemma_pair_reads_back(n[3], n[4]);
    lemma_pair_reads_back(n[5], n[6]);
    assert(rgb_hex(hex_to_rgb_spec(h)) =~= n);
}

/// A valid `#RRGGBB` color in upper case reads back as itself.
pub proof fn law_upper_hex_reads_as_itself(h: Seq<char>)
    requires
        is_valid_hex_spec(h),
        forall|i: int| 0 <= i < h.len() ==> !('a' <= #[trigger] h[i] && h[i] <= 'z'),
    ensures
        parse_color_input_spec(h) == Some(h),
{
    reveal_strlit("black");
    reveal_strlit("red");
    reveal_strlit("green");
    reveal_strlit("yellow");
    reveal_strlit("blue");
    reveal_strlit("magenta");
    reveal_strlit("cyan");
    reveal_strlit("white");
    reveal_strlit("gray");
    reveal_strlit("grey");
    reveal_strlit("orange");
    reveal_strlit("purple");
    reveal_strlit("pink");
    assert(h[0] == '#');
    assert(h.last() == h[6]);
    assert(is_ascii_hex(h[6]));
    lemma_trim_noop(h);
    lemma_upper_noop(h);
    assert(!all_decimal(h) || h.len() == 0);
}

/// The ANSI 256-color palette is the xterm one: the sixteen system colors in
/// their standard order (black, maroon, green, olive, navy, purple, teal,
/// silver, gray, red, lime, yellow, blue, fuchsia, aqua, white), then the
/// 6x6x6 cube over the levels 0, 95, 135, 175, 215, 255 (red varying
/// slowest), then 24 grays from 8 in steps of 10.
pub proof fn law_ansi_palette_is_xterm()
    ensures
        ansi256_rgb(0) == (0u8, 0u8, 0u8),
        ansi256_rgb(1) == (128u8, 0u8, 0u8),
        ansi256_rgb(2) == (0u8, 128u8, 0u8),
        ansi256_rgb(3) == (128u8, 128u8, 0u8),
        ansi256_rgb(4) == (0u8, 0u8, 128u8),
        ansi256_rgb(5) == (128u8, 0u8, 128u8),
        ansi256_rgb(6) == (0u8, 128u8, 128u8),
        ansi256_rgb(7) == (192u8, 192u8, 192u8),
        ansi256_rgb(8) == (128u8, 128u8, 128u8),
        ansi256_rgb(9) == (255u8, 0u8, 0u8),
        ansi256_rgb(10) == (0u8, 255u8, 0u8),
        ansi256_rgb(11) == (255u8, 255u8, 0u8),
        ansi256_rgb(12) == (0u8, 0u8, 255u8),
        ansi256_rgb(13) == (255u8, 0u8, 255u8),
        ansi256_rgb(14) == (0u8, 255u8, 255u8),
        ansi256_rgb(15) == (255u8, 255u8, 255u8),
        forall|i: u8|
            16 <= i <= 231 ==> {
                let levels = seq![0u8, 95u8, 135u8, 175u8, 215u8, 255u8];
                let k = i - 16;
                #[trigger] ansi256_rgb(i) == (levels[k / 36], levels[(k % 36) / 6], levels[k % 6])
            },
        forall|i: u8|
            232 <= i ==> {
                let g = 8 + 10 * (i - 232);
                #[trigger] ansi256_rgb(i) == (g as u8, g as u8, g as u8)
            },
{
    assert forall|i: u8| 16 <= i <= 231 implies {
        let levels = seq![0u8, 95u8, 135u8, 175u8, 215u8, 255u8];
        let k = i - 16;
        #[trigger] ansi256_rgb(i) == (levels[k / 36], levels[(k % 36) / 6], levels[k % 6])
    } by {
        let levels = seq![0u8, 95u8, 135u8, 175u8, 215u8, 255u8];
        let k = (i - 16) as u8;
        assert(k / 36 < 6 && (k % 36) / 6 < 6 && k % 6 < 6);
        assert forall|j: u8| j < 6 implies cube_level(j) == levels[j as int] by {}
        assert(cube_level(k / 36) == levels[(k / 36) as int]);
        assert(cube_level(((k % 36) / 6) as u8) == levels[((k % 36) / 6) as int]);
        assert(cube_level(k % 6) == levels[(k % 6) as int]);
    }
}

/// Reading the screen color of a `#RRGGBB` text written from channels gives
/// those channels, in order.
pub proof fn law_screen_color_roundtrip(c: (u8, u8, u8))
    ensures
        screen_color_sliceable(rgb_hex(c)),
        screen_color_spec(rgb_hex(c)) == Some(c),
{
    let h = rgb_hex(c);
    let s = h.drop_first();
    lemma_rgb_hex_chars(c);
    assert(s.len() == 6);
    assert(s[0] == h[1]);
    assert(strip_hashes(s) == s);
    assert(strip_hashes(h) == strip_hashes(h.drop_first()));
    assert(vstd::utf8::is_ascii_chars(s)) by {
        assert forall|i: int| 0 <= i < s.len() implies ((#[trigger] s[i]) as u32) < 128 by {
            assert(s[i] == h[i + 1]);
        }
    }
    vstd::utf8::is_ascii_chars_encode_utf8(s);
    let b = encode_utf8(s);
    vstd::utf8::encode_utf8_valid_utf8(s);
    vstd::utf8::is_char_boundary_start_end_of_seq(b);
    assert(b.len() == 6);
    assert forall|i: int| 0 <= i < 6 implies #[trigger] b[i] == h[i + 1] as u8 by {
        assert(s[i] == h[i + 1]);
    }
    vstd::utf8::is_char_boundary_iff_not_is_continuation_byte(b, 2);
    vstd::utf8::is_char_boundary_iff_not_is_continuation_byte(b, 4);
    lemma_hex_digit_byte(c.0 / 16);
    lemma_hex_digit_byte(c.0 % 16);
    lemma_hex_digit_byte(c.1 / 16);
    lemma_hex_digit_byte(c.1 % 16);
    lemma_hex_digit_byte(c.2 / 16);
    lemma_hex_digit_byte(c.2 % 16);
    assert(h[1] == hex_digit_char(c.0 / 16) && h[2] == hex_digit_char(c.0 % 16));
    assert(h[3] == hex_digit_char(c.1 / 16) && h[4] == hex_digit_char(c.1 % 16));
    assert(h[5] == hex_digit_char(c.2 / 16) && h[6] == hex_digit_char(c.2 % 16));
}

} // verus!
