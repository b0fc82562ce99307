//! What the screen shows, computed apart from drawing it.
use vstd::prelude::*;

use crate::app::{App, Focus};
use crate::text::{decimal, decimal_string, push_decimal, two_digits};

verus! {

/// `ms` as minutes and seconds, "m:ss".
pub open spec fn spec_fmt_time(ms: u32) -> Seq<char> {
    let secs = ms / 1000;
    decimal((secs / 60) as nat) + ":"@ + two_digits((secs % 60) as nat)
}

/// Formats a duration in milliseconds as minutes and seconds, "m:ss".
pub fn fmt_time(ms: u32) -> (text: String)
    ensures
        text@ == spec_fmt_time(ms),
{
    let secs = ms / 1000;
    let mut text = decimal_string((secs / 60) as u64);
    text.append(":");
    let seconds = secs % 60;
    if seconds < 10 {
        text.append("0");
    }
    push_decimal(&mut text, seconds as u64);
    proof {
        reveal_strlit(":");
        reveal_strlit("0");
        if seconds < 10 {
            assert(decimal(seconds as nat) =~= seq![crate::text::digit_char(seconds as nat)]);
        }
    }
    text
}

/// The number shown in front of a track row.
#[derive(Debug, Clone, PartialEq, Eq)]
pub struct RowNumber {
    pub text: String,
    /// Shown faded: a distance from the cursor rather than the row's own number.
    pub dimmed: bool,
}

/// The distance between two rows.
pub open spec fn distance(a: usize, b: usize) -> nat {
    if a >= b {
        (a - b) as nat
    } else {
        (b - a) as nat
    }
}

/// The number of row `index`: with a cursor on another row, the distance to
/// the cursor, faded; otherwise the row's position counted from one.
pub open spec fn spec_row_number(cursor: Option<usize>, index: usize) -> (Seq<char>, bool) {
    match cursor {
        Some(c) => if c != index {
            (decimal(distance(c, index)), true)
        } else {
            (decimal((index + 1) as nat), false)
        },
        None => (decimal((index + 1) as nat), false),
    }
}

/// The number of row `index` with the cursor at `cursor`.
pub fn track_number(cursor: Option<usize>, index: usize) -> (number: RowNumber)
    requires
        index < usize::MAX,
    ensures
        (number.text@, number.dimmed) == spec_row_number(cursor, index),
{
    match cursor {
        Some(c) => if c != index {
            let gap: usize = if c >= index { c - index } else { index - c };
            return RowNumber { text: decimal_string(gap as u64), dimmed: true };
        },
        None => {},
    }
    RowNumber { text: decimal_string((index + 1) as u64), dimmed: false }
}

/// The cursor that the number column counts from: the selected track while
/// the track list has focus.
pub open spec fn spec_number_cursor(app: App) -> Option<usize> {
    if app.focus == Focus::Main {
        app.track_list.index
    } else {
        None
    }
}

/// The number column of the track list, one entry per loaded track.
pub fn track_numbers(app: &App) -> (numbers: Vec<RowNumber>)
    ensures
        numbers@.len() == app.tracks@.len(),
        forall|i: int|
            0 <= i < numbers@.len() ==> (#[trigger] numbers@[i].text@, numbers@[i].dimmed)
                == spec_row_number(spec_number_cursor(*app), i as usize),
{
    let cursor = if app.focus == Focus::Main {
        app.track_list.selected()
    } else {
        None
    };
    let n = app.tracks.len();
    let mut numbers: Vec<RowNumber> = Vec::new();
    let mut i: usize = 0;
    while i < n
        invariant
            n == app.tracks@.len(),
            i <= n,
            cursor == spec_number_cursor(*app),
            numbers@.len() == i,
            forall|j: int|
                0 <= j < i ==> (#[trigger] numbers@[j].text@, numbers@[j].dimmed) == spec_row_number(
                    cursor,
                    j as usize,
                ),
        decreases n - i,
    {
        numbers.push(track_number(cursor, i));
        i = i + 1;
    }
    numbers
}

/// The volume in percent of the full scale, rounded to the nearest.
pub open spec fn spec_volume_percent(volume: u16) -> u32 {
    ((volume * 100int + 32767int) / 65535int) as u32
}

/// The volume in percent of the full scale, rounded to the nearest.
pub fn volume_percent(volume: u16) -> (percent: u32)
    ensures
        percent == spec_volume_percent(volume),
        percent <= 100,
{
    let max: u32 = 65535;
    let scaled: u32 = volume as u32 * 100;
    (scaled + max / 2) / max
}

/// The title of the track list: the shown playlist's name, or "Tracks".
pub fn tracks_title(app: &App) -> (title: String)
    ensures
        match app.tracks_for {
            Some(shown) => (exists|i: int|
                0 <= i < app.playlists@.len() && app.playlists@[i].source@ == shown@ && title@
                    == app.playlists@[i].name@ && forall|j: int|
                    0 <= j < i ==> app.playlists@[j].source@ != shown@) || ((forall|j: int|
                0 <= j < app.playlists@.len() ==> app.playlists@[j].source@ != shown@) && title@
                == "Tracks"@),
            None => title@ == "Tracks"@,
        },
{
    match app.showing_playlist() {
        Some(playlist) => playlist.name.clone(),
        None => {
            proof {
                reveal_strlit("Tracks");
            }
            String::from_str("Tracks")
        },
    }
}

} // verus!
