//! What the screen shows: numbers read back as the values they stand for,
//! times as minutes and seconds, and the colours of panes with and without
//! focus.
use vstd::prelude::*;

use crate::text::{decimal, two_digits};
use crate::theme::{spec_at_strength, spec_half, spec_selected, Color, Theme};
use crate::ui::{spec_fmt_time, spec_row_number, spec_volume_percent};

verus! {

/// Whether `c` is one of the digits `0` to `9`.
pub open spec fn is_digit(c: char) -> bool {
    '0' <= c && c <= '9'
}

/// The number that the decimal digits `digits` stand for.
pub open spec fn digits_value(digits: Seq<char>) -> int
    decreases digits.len(),
{
    if digits.len() == 0 {
        0
    } else {
        digits_value(digits.drop_last()) * 10 + (digits.last() as int - '0' as int)
    }
}

/// Whether `text` is a number written in decimal: digits only, at least
/// one, and no leading zero.
pub open spec fn plain_decimal(text: Seq<char>) -> bool {
    &&& text.len() >= 1
    &&& forall|i: int| 0 <= i < text.len() ==> is_digit(#[trigger] text[i])
    &&& text.len() > 1 ==> text[0] != '0'
}

proof fn lemma_digit_char(d: nat)
    requires
        d < 10,
    ensures
        is_digit(crate::text::digit_char(d)),
        crate::text::digit_char(d) as int - '0' as int == d,
        d != 0 ==> crate::text::digit_char(d) != '0',
{
    assert('0' as int == 48 && '1' as int == 49 && '2' as int == 50 && '3' as int == 51 && '4' as int == 52);
    assert('5' as int == 53 && '6' as int == 54 && '7' as int == 55 && '8' as int == 56 && '9' as int == 57);
}

/// A number written in decimal has digits only, no leading zero, and reads
/// back as the number.
pub proof fn lemma_decimal_reads_back(n: nat)
    ensures
        plain_decimal(decimal(n)),
        digits_value(decimal(n)) == n,
        n >= 10 ==> decimal(n).len() >= 2,
    decreases n,
{
    lemma_digit_char(n % 10);
    if n < 10 {
        assert(n % 10 == n);
        assert(decimal(n) == seq![crate::text::digit_char(n)]);
        assert(decimal(n).drop_last() =~= Seq::<char>::empty());
        assert(digits_value(decimal(n)) == digits_value(Seq::<char>::empty()) * 10 + (crate::text::digit_char(n) as int - '0' as int));
        assert(is_digit(decimal(n)[0]));
    } else {
        assert(n == (n / 10) * 10 + n % 10);
        if n / 10 < 10 {
            lemma_digit_char(n / 10);
            assert(decimal(n / 10) == seq![crate::text::digit_char(n / 10)]);
            assert(decimal(n / 10)[0] != '0');
        }
        lemma_decimal_reads_back(n / 10);
        let front = decimal(n / 10);
        assert(decimal(n).drop_last() =~= front);
        assert forall|i: int| 0 <= i < decimal(n).len() implies is_digit(#[trigger] decimal(n)[i]) by {
            if i < front.len() {
                assert(decimal(n)[i] == front[i]);
            }
        }
        assert(decimal(n)[0] == front[0]);
        assert(decimal(n).last() == crate::text::digit_char(n % 10));
        assert(digits_value(decimal(n)) == digits_value(front) * 10 + (crate::text::digit_char(n % 10) as int - '0' as int));
    }
}

/// A number below a hundred written with two digits reads back as the
/// number.
pub proof fn lemma_two_digits_read_back(n: nat)
    requires
        n < 100,
    ensures
        two_digits(n).len() == 2,
        is_digit(two_digits(n)[0]) && is_digit(two_digits(n)[1]),
        digits_value(two_digits(n)) == n,
{
    lemma_decimal_reads_back(n);
    if n < 10 {
        lemma_digit_char(n);
        lemma_digit_char(0);
        assert(two_digits(n).drop_last() =~= seq!['0']);
        assert(seq!['0'].drop_last() =~= Seq::<char>::empty());
        assert(digits_value(seq!['0']) == digits_value(Seq::<char>::empty()) * 10 + ('0' as int - '0' as int));
        assert(digits_value(two_digits(n)) == digits_value(seq!['0']) * 10 + (crate::text::digit_char(n) as int - '0' as int));
    } else {
        assert(decimal(n).len() == 2) by {
            assert(decimal(n / 10).len() == 1);
        }
    }
}

/// A duration is shown as its whole minutes, a colon, and the seconds past
/// the minute in two digits.
pub proof fn lemma_times_read_back(ms: u32)
    ensures
        ({
            let text = spec_fmt_time(ms);
            let colon = text.len() - 3;
            &&& text.len() >= 4
            &&& text[colon] == ':'
            &&& plain_decimal(text.subrange(0, colon))
            &&& digits_value(text.subrange(0, colon)) == ms / 60_000
            &&& is_digit(text[colon + 1]) && is_digit(text[colon + 2])
            &&& digits_value(text.subrange(colon + 1, text.len() as int)) == (ms / 1000) % 60
        }),
{
    let secs = ms / 1000;
    let minutes = decimal((secs / 60) as nat);
    let seconds = two_digits((secs % 60) as nat);
    lemma_decimal_reads_back((secs / 60) as nat);
    lemma_two_digits_read_back((secs % 60) as nat);
    let text = spec_fmt_time(ms);
    assert(text == minutes + ":"@ + seconds);
    reveal_strlit(":");
    let colon = text.len() - 3;
    assert(text.subrange(0, colon) =~= minutes);
    assert(text.subrange(colon + 1, text.len() as int) =~= seconds);
    assert(text[colon] == ':');
    assert(text[colon + 1] == seconds[0]);
    assert(text[colon + 2] == seconds[1]);
    assert(secs / 60 == ms / 60_000);
}

/// The number of a track row: with the cursor on another row, the distance
/// to the cursor, shown faded; otherwise the row's own position counted from
/// one.
pub proof fn lemma_row_numbers(cursor: Option<usize>, index: usize)
    ensures
        plain_decimal(spec_row_number(cursor, index).0),
        match cursor {
            Some(c) => if c != index {
                &&& spec_row_number(cursor, index).1
                &&& digits_value(spec_row_number(cursor, index).0) == if c > index {
                    c - index
                } else {
                    index - c
                }
            } else {
                &&& !spec_row_number(cursor, index).1
                &&& digits_value(spec_row_number(cursor, index).0) == index + 1
            },
            None => {
                &&& !spec_row_number(cursor, index).1
                &&& digits_value(spec_row_number(cursor, index).0) == index + 1
            },
        },
{
    match cursor {
        Some(c) => if c != index {
            lemma_decimal_reads_back(if c >= index { (c - index) as nat } else { (index - c) as nat });
        } else {
            lemma_decimal_reads_back((index + 1) as nat);
        },
        None => lemma_decimal_reads_back((index + 1) as nat),
    }
}

/// The volume in percent is the nearest whole percent of the full scale of
/// 65535: it is off from the exact share by at most half a percent.
pub proof fn lemma_volume_percent_is_nearest(volume: u16)
    ensures
        ({
            let p = spec_volume_percent(volume) as int;
            &&& 0 <= p <= 100
            &&& -32767 <= volume * 100 - p * 65535 <= 32767
        }),
{
    let v = volume as int;
    let q = (v * 100 + 32767) / 65535;
    assert(0 <= v * 100 + 32767 - q * 65535 < 65535) by (nonlinear_arith)
        requires
            q == (v * 100 + 32767) / 65535,
            0 <= v <= 65535,
    ;
    assert(0 <= q <= 100) by (nonlinear_arith)
        requires
            q == (v * 100 + 32767) / 65535,
            0 <= v <= 65535,
    ;
}

/// Halving blends each channel of an RGB colour halfway toward an RGB
/// surface, rounding down; other colours cannot be halved.
pub proof fn lemma_half_is_the_midpoint(surface: Color, color: Color)
    ensures
        match (surface, color) {
            (Color::Rgb(sr, sg, sb), Color::Rgb(r, g, b)) => match spec_half(surface, color) {
                Some(Color::Rgb(hr, hg, hb)) => {
                    &&& 2 * hr <= r + sr <= 2 * hr + 1
                    &&& 2 * hg <= g + sg <= 2 * hg + 1
                    &&& 2 * hb <= b + sb <= 2 * hb + 1
                },
                _ => false,
            },
            _ => true,
        },
        !(surface is Rgb && color is Rgb) ==> spec_half(surface, color) is None,
{
}

/// A pane with focus draws a colour as it is, on no background and without
/// the faint attribute; a pane without focus draws it halfway toward the
/// surface, or faint where it cannot be halved.
pub proof fn lemma_panes_fade_without_focus(theme: Theme, focused: bool, color: Color)
    ensures
        ({
            let style = spec_at_strength(theme, focused, color);
            &&& style.bg is None
            &&& focused ==> style.fg == Some(color) && !style.add_modifier.dim
            &&& !focused ==> match spec_half(theme.surface, color) {
                Some(h) => style.fg == Some(h) && !style.add_modifier.dim,
                None => style.fg == Some(color) && style.add_modifier.dim,
            }
        }),
{
}

/// The selected row of a pane with focus puts the surface colour on an
/// accent bar; without focus the bar is the accent halved toward the
/// surface (the accent itself where it cannot be halved) behind the text
/// colour.
pub proof fn lemma_selection_bar(theme: Theme, focused: bool)
    ensures
        ({
            let style = spec_selected(theme, focused);
            &&& !style.add_modifier.dim
            &&& focused ==> style.fg == Some(theme.surface) && style.bg == Some(theme.accent)
            &&& !focused ==> style.fg == Some(theme.text)
            &&& !focused ==> match spec_half(theme.surface, theme.accent) {
                Some(h) => style.bg == Some(h),
                None => style.bg == Some(theme.accent),
            }
        }),
{
}

} // verus!
