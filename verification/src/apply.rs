//! The OSC escape sequences that recolor a terminal or restore its palette.
//!
//! Writing them to the terminal is the application's part; this module
//! computes the exact text.
use vstd::prelude::*;

use crate::config::CustomTheme;
use crate::text::{chars_of, extend_chars, string_of};
use crate::theme::Theme;

verus! {

/// An operating-system command: `ESC ]`, the body, `BEL`.
pub open spec fn osc(body: Seq<char>) -> Seq<char> {
    seq!['\u{1b}', ']'] + body + seq!['\u{7}']
}

/// The ASCII digit for a value below ten.
pub open spec fn digit_char(d: nat) -> char {
    ((('0' as u32) as nat) + d) as char
}

/// The decimal notation of a natural number, without leading zeros.
pub open spec fn decimal(n: nat) -> Seq<char>
    decreases n,
{
    if n < 10 {
        seq![digit_char(n)]
    } else {
        decimal(n / 10) + seq![digit_char(n % 10)]
    }
}

/// `OSC 4 ; i ; color BEL` for every palette entry, in order.
pub open spec fn palette_sequence(ansi: Seq<Seq<char>>) -> Seq<char>
    decreases ansi.len(),
{
    if ansi.len() == 0 {
        Seq::empty()
    } else {
        palette_sequence(ansi.drop_last()) + osc(
            seq!['4', ';'] + decimal((ansi.len() - 1) as nat) + seq![';'] + ansi.last(),
        )
    }
}

/// The sequence that sets the palette, then the foreground (`OSC 10`),
/// background (`OSC 11`) and cursor (`OSC 12`) colors.
pub open spec fn colors_sequence(
    foreground: Seq<char>,
    background: Seq<char>,
    cursor: Seq<char>,
    ansi: Seq<Seq<char>>,
) -> Seq<char> {
    palette_sequence(ansi) + osc(seq!['1', '0', ';'] + foreground) + osc(
        seq!['1', '1', ';'] + background,
    ) + osc(seq!['1', '2', ';'] + cursor)
}

/// `OSC 104 ; i BEL` for the palette entries `0..n`.
pub open spec fn reset_palette_sequence(n: nat) -> Seq<char>
    decreases n,
{
    if n == 0 {
        Seq::empty()
    } else {
        reset_palette_sequence((n - 1) as nat) + osc(
            seq!['1', '0', '4', ';'] + decimal((n - 1) as nat),
        )
    }
}

/// The sequence that restores the sixteen palette entries and the
/// foreground, background and cursor colors.
pub open spec fn reset_sequence() -> Seq<char> {
    reset_palette_sequence(16) + osc(seq!['1', '1', '0']) + osc(seq!['1', '1', '1']) + osc(
        seq!['1', '1', '2'],
    )
}

/// The views of a list of strings.
pub open spec fn str_views(v: Seq<&str>) -> Seq<Seq<char>> {
    v.map_values(|s: &str| s@)
}

/// The views of a list of owned strings.
pub open spec fn string_views(v: Seq<String>) -> Seq<Seq<char>> {
    v.map_values(|s: String| s@)
}

/// The views of a list of character vectors.
pub open spec fn char_vec_views(v: Seq<Vec<char>>) -> Seq<Seq<char>> {
    v.map_values(|s: Vec<char>| s@)
}

fn digit(d: usize) -> (c: char)
    requires
        d < 10,
    ensures
        c == digit_char(d as nat),
{
    let b: u8 = d as u8;
    (b + 48) as char
}

/// Appends the decimal notation of `n`.
fn push_decimal(out: &mut Vec<char>, n: usize)
    ensures
        final(out)@ == old(out)@ + decimal(n as nat),
    decreases n,
{
    if n < 10 {
        out.push(digit(n));
    } else {
        push_decimal(out, n / 10);
        out.push(digit(n % 10));
        assert(final(out)@ =~= old(out)@ + decimal(n as nat));
    }
}

/// Appends `OSC body BEL`.
fn push_osc(out: &mut Vec<char>, body: &Vec<char>)
    ensures
        final(out)@ == old(out)@ + osc(body@),
{
    out.push('\u{1b}');
    out.push(']');
    extend_chars(out, body);
    out.push('\u{7}');
    assert(final(out)@ =~= old(out)@ + osc(body@));
}

/// The escape sequence for the given colors and palette.
pub fn colors_escape_sequence(
    foreground: &str,
    background: &str,
    cursor: &str,
    ansi: &Vec<Vec<char>>,
) -> (r: String)
    ensures
        r@ == colors_sequence(foreground@, background@, cursor@, char_vec_views(ansi@)),
{
    let mut out: Vec<char> = Vec::new();
    let mut i: usize = 0;
    while i < ansi.len()
        invariant
            i <= ansi.len(),
            out@ == palette_sequence(char_vec_views(ansi@.take(i as int))),
        decreases ansi.len() - i,
    {
        let mut body: Vec<char> = Vec::new();
        body.push('4');
        body.push(';');
        push_decimal(&mut body, i);
        body.push(';');
        extend_chars(&mut body, &ansi[i]);
        push_osc(&mut out, &body);
        proof {
            let s = char_vec_views(ansi@.take(i + 1));
            assert(s.drop_last() =~= char_vec_views(ansi@.take(i as int)));
            assert(s.last() == ansi@[i as int]@);
            assert(body@ =~= seq!['4', ';'] + decimal(i as nat) + seq![';'] + s.last());
        }
        i = i + 1;
    }
    assert(ansi@.take(ansi.len() as int) =~= ansi@);
    let mut tail: Vec<char> = Vec::new();
    tail.push('1');
    tail.push('0');
    tail.push(';');
    extend_chars(&mut tail, &chars_of(foreground));
    push_osc(&mut out, &tail);
    let mut tail: Vec<char> = Vec::new();
    tail.push('1');
    tail.push('1');
    tail.push(';');
    extend_chars(&mut tail, &chars_of(background));
    push_osc(&mut out, &tail);
    let mut tail: Vec<char> = Vec::new();
    tail.push('1');
    tail.push('2');
    tail.push(';');
    extend_chars(&mut tail, &chars_of(cursor));
    push_osc(&mut out, &tail);
    proof {
        let ansi_v = char_vec_views(ansi@);
        assert(out@ =~= colors_sequence(foreground@, background@, cursor@, ansi_v));
    }
    string_of(&out)
}

/// The escape sequence that recolors a terminal with a bundled theme.
pub fn theme_escape_sequence(theme: &Theme) -> (r: String)
    ensures
        r@ == colors_sequence(
            theme.foreground@,
            theme.background@,
            theme.cursor@,
            str_views(theme.ansi@),
        ),
{
    let mut ansi: Vec<Vec<char>> = Vec::new();
    let mut i: usize = 0;
    while i < 16
        invariant
            i <= 16,
            ansi.len() == i,
            forall|k: int| 0 <= k < i ==> #[trigger] ansi@[k]@ == theme.ansi@[k]@,
        decreases 16 - i,
    {
        let cs = chars_of(theme.ansi[i]);
        ansi.push(cs);
        i = i + 1;
    }
    assert(char_vec_views(ansi@) =~= str_views(theme.ansi@));
    colors_escape_sequence(theme.foreground, theme.background, theme.cursor, &ansi)
}

/// The escape sequence that recolors a terminal with a saved custom theme.
pub fn custom_theme_escape_sequence(theme: &CustomTheme) -> (r: String)
    ensures
        r@ == colors_sequence(
            theme.foreground@,
            theme.background@,
            theme.cursor@,
            string_views(theme.ansi@),
        ),
{
    let mut ansi: Vec<Vec<char>> = Vec::new();
    let mut i: usize = 0;
    while i < 16
        invariant
            i <= 16,
            ansi.len() == i,
            forall|k: int| 0 <= k < i ==> #[trigger] ansi@[k]@ == theme.ansi@[k]@,
        decreases 16 - i,
    {
        let cs = chars_of(theme.ansi[i].as_str());
        ansi.push(cs);
        i = i + 1;
    }
    assert(char_vec_views(ansi@) =~= string_views(theme.ansi@));
    colors_escape_sequence(
        theme.foreground.as_str(),
        theme.background.as_str(),
        theme.cursor.as_str(),
        &ansi,
    )
}

/// The escape sequence that asks a terminal to restore its default colors.
pub fn reset_escape_sequence() -> (r: String)
    ensures
        r@ == reset_sequence(),
{
    let mut out: Vec<char> = Vec::new();
    let mut i: usize = 0;
    while i < 16
        invariant
            i <= 16,
            out@ == reset_palette_sequence(i as nat),
        decreases 16 - i,
    {
        let mut body: Vec<char> = Vec::new();
        body.push('1');
        body.push('0');
        body.push('4');
        body.push(';');
        push_decimal(&mut body, i);
        push_osc(&mut out, &body);
        assert(body@ =~= seq!['1', '0', '4', ';'] + decimal(i as nat));
        i = i + 1;
    }
    let mut body: Vec<char> = Vec::new();
    body.push('1');
    body.push('1');
    body.push('0');
    push_osc(&mut out, &body);
    let mut body: Vec<char> = Vec::new();
    body.push('1');
    body.push('1');
    body.push('1');
    push_osc(&mut out, &body);
    let mut body: Vec<char> = Vec::new();
    body.push('1');
    body.push('1');
    body.push('2');
    push_osc(&mut out, &body);
    assert(body@ =~= seq!['1', '1', '2']);
    assert(out@ =~= reset_sequence());
    string_of(&out)
}

} // verus!
