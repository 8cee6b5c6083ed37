//! The color parsing behind contrast ratios. The ratios and grades
//! themselves are floating-point arithmetic and stay with the application.
use vstd::prelude::*;

use crate::colors::{parse_hex_pair, parse_pair};
use crate::text::{chars_of, string_from};
use vstd::utf8::{encode_utf8, is_char_boundary};

verus! {

/// `str::strip_prefix('#')`, or the text itself.
pub open spec fn strip_one_hash(s: Seq<char>) -> Seq<char> {
    if s.len() > 0 && s[0] == '#' {
        s.drop_first()
    } else {
        s
    }
}

/// Whether the channel pairs can be sliced out: when the text has six bytes
/// after an optional `#`, offsets 2 and 4 fall on character boundaries. On
/// other texts slicing panics.
pub open spec fn contrast_sliceable(hex: Seq<char>) -> bool {
    let b = encode_utf8(strip_one_hash(hex));
    b.len() == 6 ==> is_char_boundary(b, 2) && is_char_boundary(b, 4)
}

/// The channels of a color for contrast: six bytes after an optional `#`,
/// each pair two hexadecimal digits (or `+` and one); otherwise none.
pub open spec fn hex_channels_spec(hex: Seq<char>) -> Option<(u8, u8, u8)> {
    let b = encode_utf8(strip_one_hash(hex));
    if b.len() != 6 {
        None
    } else {
        match (parse_hex_pair(b[0], b[1]), parse_hex_pair(b[2], b[3]), parse_hex_pair(b[4], b[5])) {
            (Some(r), Some(g), Some(bl)) => Some((r, g, bl)),
            _ => None,
        }
    }
}

/// Whether [`hex_channels`] can take a color text apart (see
/// [`contrast_sliceable`]).
pub fn hex_channels_readable(hex: &str) -> (r: bool)
    ensures
        r == contrast_sliceable(hex@),
{
    let cs = chars_of(hex);
    let k: usize = if cs.len() > 0 && cs[0] == '#' { 1 } else { 0 };
    let rest = string_from(&cs, k);
    assert(rest@ == strip_one_hash(hex@));
    let s = rest.as_str();
    s.as_bytes().len() != 6 || (s.is_char_boundary(2) && s.is_char_boundary(4))
}

/// The red, green and blue channels of a `#RRGGBB` or `RRGGBB` color, or
/// none when the text is not one.
pub fn hex_channels(hex: &str) -> (r: Option<(u8, u8, u8)>)
    requires
        contrast_sliceable(hex@),
    ensures
        r == hex_channels_spec(hex@),
{
    let cs = chars_of(hex);
    let k: usize = if cs.len() > 0 && cs[0] == '#' { 1 } else { 0 };
    let rest = string_from(&cs, k);
    assert(rest@ == strip_one_hash(hex@));
    let b = rest.as_str().as_bytes();
    if b.len() != 6 {
        return None;
    }
    let red = parse_pair(b[0], b[1]);
    let green = parse_pair(b[2], b[3]);
    let blue = parse_pair(b[4], b[5]);
    match (red, green, blue) {
        (Some(r), Some(g), Some(bl)) => Some((r, g, bl)),
        _ => None,
    }
}

/// Reading the channels of a `#RRGGBB` text written from channels gives
/// those channels, in order, and the text can always be taken apart.
pub proof fn law_hex_channels_roundtrip(c: (u8, u8, u8))
    ensures
        contrast_sliceable(crate::colors::rgb_hex(c)),
        hex_channels_spec(crate::colors::rgb_hex(c)) == Some(c),
{
    let h = crate::colors::rgb_hex(c);
    let s = h.drop_first();
    crate::colors::lemma_rgb_hex_chars(c);
    assert(strip_one_hash(h) == s);
    assert(s.len() == 6);
    assert(vstd::utf8::is_ascii_chars(s)) by {
        assert forall|i: int| 0 <= i < s.len() implies ((#[trigger] s[i]) as u32) < 128 by {
            assert(s[i] == h[i + 1]);
        }
    }
    vstd::utf8::is_ascii_chars_encode_utf8(s);
    let b = encode_utf8(s);
    vstd::utf8::encode_utf8_valid_utf8(s);
    vstd::utf8::is_char_boundary_start_end_of_seq(b);
    assert(b.len() == 6);
    assert forall|i: int| 0 <= i < 6 implies #[trigger] b[i] == h[i + 1] as u8 by {
        assert(s[i] == h[i + 1]);
    }
    vstd::utf8::is_char_boundary_iff_not_is_continuation_byte(b, 2);
    vstd::utf8::is_char_boundary_iff_not_is_continuation_byte(b, 4);
    crate::colors::lemma_hex_digit_byte(c.0 / 16);
    crate::colors::lemma_hex_digit_byte(c.0 % 16);
    crate::colors::lemma_hex_digit_byte(c.1 / 16);
    crate::colors::lemma_hex_digit_byte(c.1 % 16);
    crate::colors::lemma_hex_digit_byte(c.2 / 16);
    crate::colors::lemma_hex_digit_byte(c.2 % 16);
    assert(h[1] == crate::colors::hex_digit_char(c.0 / 16) && h[2] == crate::colors::hex_digit_char(c.0 % 16));
    assert(h[3] == crate::colors::hex_digit_char(c.1 / 16) && h[4] == crate::colors::hex_digit_char(c.1 % 16));
    assert(h[5] == crate::colors::hex_digit_char(c.2 / 16) && h[6] == crate::colors::hex_digit_char(c.2 % 16));
}

} // verus!
