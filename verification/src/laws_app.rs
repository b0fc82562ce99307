//! What the keys and the reports do to the application, stated directly in
//! terms of the state before and after and the effects asked for.
use vstd::prelude::*;

use crate::action::Action;
use crate::app::{
    focused_index, focused_len, is_motion, spec_update_action, spec_update_message, App, ConnectionStatus, Effect,
    Focus, LibraryRequest,
};
use crate::message::Message;
use crate::player::{PlayerCommand, PlayerUpdate};

verus! {

// ---------------------------------------------------------------------------
// Motions
// ---------------------------------------------------------------------------

/// `x` brought onto the rows of a list of `len` rows: below the first row
/// is the first, past the last row is the last.
pub open spec fn onto_rows(x: int, len: int) -> int {
    if x < 0 {
        0
    } else if x >= len {
        len - 1
    } else {
        x
    }
}

/// The row a motion starts from: the selected one, or the first.
pub open spec fn start_row(index: Option<usize>) -> int {
    match index {
        Some(i) => i as int,
        None => 0,
    }
}

/// How many rows a count moves: the count (at most `isize::MAX`), or one
/// without a count.
pub open spec fn count_rows(count: Option<usize>) -> int {
    match count {
        Some(c) => if c > isize::MAX {
            isize::MAX as int
        } else {
            c as int
        },
        None => 1,
    }
}

/// The row a motion lands on in a list of `len` rows, from the selected row
/// `index` with the pending `count`: `j` and `k` move down and up by the
/// count, `g` moves up by `isize::MAX + 1` rows (to the top of any list
/// whose rows are numbered within `isize`), `G` moves down by `isize::MAX`
/// rows without a count, and with a count goes to that row number.
pub open spec fn landing_row(index: Option<usize>, len: int, action: Action, count: Option<usize>) -> int {
    let from = start_row(index);
    match action {
        Action::MoveDown => onto_rows(from + count_rows(count), len),
        Action::MoveUp => onto_rows(from - count_rows(count), len),
        Action::GoTop => onto_rows(from + isize::MIN, len),
        _ => match count {
            Some(row) => onto_rows(row - 1, len),
            None => onto_rows(from + isize::MAX, len),
        },
    }
}

/// A motion in a non-empty list lands on the row that the count says,
/// stopping at the first and the last row, and leaves the other list, the
/// focus and the rest of the library alone; the count is used up.
pub proof fn lemma_motions_land_on_the_counted_row(before: App, action: Action, after: App, effects: Seq<Effect>)
    requires
        is_motion(action),
        focused_len(before) > 0,
        spec_update_action(before, action, after, effects),
    ensures
        focused_index(after) == Some(
            landing_row(focused_index(before), focused_len(before) as int, action, before.pending_count) as usize,
        ),
        after.focus == before.focus,
        after.pending_count is None,
        before.focus == Focus::Sidebar ==> after.track_list == before.track_list,
        before.focus == Focus::Main ==> after.sidebar == before.sidebar,
        after.playlists == before.playlists,
        after.tracks == before.tracks,
        after.track_uris == before.track_uris,
        after.playback == before.playback,
{
}

/// A count past the end of a list selects its last row, and a count within
/// the list selects that row (row numbers count from one; zero is the first).
pub proof fn lemma_counted_bottom(before: App, row: usize, after: App, effects: Seq<Effect>)
    requires
        focused_len(before) > 0,
        before.pending_count == Some(row),
        spec_update_action(before, Action::GoBottom, after, effects),
    ensures
        row >= focused_len(before) ==> focused_index(after) == Some((focused_len(before) - 1) as usize),
        0 < row <= focused_len(before) ==> focused_index(after) == Some((row - 1) as usize),
        row == 0 ==> focused_index(after) == Some(0usize),
{
}

/// Without a count, `j` moves one row down and `k` one row up, stopping at
/// the ends of the list.
pub proof fn lemma_single_steps(before: App, action: Action, after: App, effects: Seq<Effect>, i: usize)
    requires
        action is MoveDown || action is MoveUp,
        before.pending_count is None,
        focused_index(before) == Some(i),
        i < focused_len(before),
        spec_update_action(before, action, after, effects),
    ensures
        action is MoveDown ==> focused_index(after) == Some(
            if i + 1 < focused_len(before) { (i + 1) as usize } else { i },
        ),
        action is MoveUp ==> focused_index(after) == Some(if i > 0 { (i - 1) as usize } else { 0usize }),
{
}

// ---------------------------------------------------------------------------
// Paging in track details
// ---------------------------------------------------------------------------

/// A motion asks for more track details exactly when, after it, the track
/// list has focus, nothing is loading, the connection is up, the cursor is
/// within ten rows of the last loaded track, a source is shown and it has
/// uris left. The request is for that source and for the next uris after
/// the loaded tracks: fifty of them, or all that are left when fewer remain;
/// the application then waits for it.
pub proof fn lemma_page_requests_take_the_next_fifty(before: App, action: Action, after: App, effects: Seq<Effect>)
    requires
        is_motion(action),
        spec_update_action(before, action, after, effects),
    ensures
        (effects.len() > 0) == {
            &&& before.focus == Focus::Main
            &&& !before.loading_more
            &&& before.connection == ConnectionStatus::Connected
            &&& after.track_list.index matches Some(i) && i + 10 >= before.tracks@.len()
            &&& before.tracks_for is Some
            &&& before.tracks@.len() < before.track_uris@.len()
        },
        effects.len() > 0 ==> {
            let loaded = before.tracks@.len() as int;
            let left = before.track_uris@.len() - loaded;
            &&& effects.len() == 1
            &&& effects[0] matches Effect::Api(LibraryRequest::MoreTracks { source, uris })
            &&& before.tracks_for == Some(source)
            &&& uris@.len() == (if left >= 50 { 50 } else { left })
            &&& forall|k: int| 0 <= k < uris@.len() ==> #[trigger] uris@[k] == before.track_uris@[loaded + k]
            &&& after.loading_more
        },
        effects.len() == 0 ==> after.loading_more == before.loading_more,
{
    if effects.len() > 0 {
        let loaded = before.tracks@.len() as int;
        if let Effect::Api(LibraryRequest::MoreTracks { source, uris }) = effects[0] {
            assert forall|k: int| 0 <= k < uris@.len() implies #[trigger] uris@[k] == before.track_uris@[loaded + k] by {
            }
        }
    }
}

// ---------------------------------------------------------------------------
// Keys that command the player or the application
// ---------------------------------------------------------------------------

/// `n` skips to the next track, `N` goes back to the previous one, space
/// toggles playing, and `q` quits; each asks for exactly that and changes
/// nothing but the pending count.
pub proof fn lemma_player_keys(before: App, action: Action, after: App, effects: Seq<Effect>)
    requires
        action is Next || action is Prev || action is PlayPause || action is Quit,
        spec_update_action(before, action, after, effects),
    ensures
        action is Next ==> effects == seq![Effect::Player(PlayerCommand::Next)],
        action is Prev ==> effects == seq![Effect::Player(PlayerCommand::Prev)],
        action is PlayPause ==> effects == seq![Effect::Player(PlayerCommand::PlayPause)],
        action is Quit ==> effects == seq![Effect::Quit],
        after == (App { pending_count: None, ..before }),
{
}

/// The volume keys set the volume a step of 4096 up or down from the last
/// reported volume, stopping at the ends of the scale.
pub proof fn lemma_volume_keys(before: App, action: Action, after: App, effects: Seq<Effect>)
    requires
        action is VolumeUp || action is VolumeDown,
        spec_update_action(before, action, after, effects),
    ensures
        ({
            let volume = before.playback.volume as int;
            let target: int = if action is VolumeUp {
                if volume + 4096 > 65535 { 65535 } else { volume + 4096 }
            } else {
                if volume < 4096 { 0 } else { volume - 4096 }
            };
            effects == seq![Effect::Player(PlayerCommand::SetVolume(target as u16))]
        }),
        after == (App { pending_count: None, ..before }),
{
}

/// The seek keys ask for one seek ten seconds forward or back, stopping at
/// the start and at the end of the range. While paused the seek starts at
/// the reported position; while playing it starts at the position shown,
/// which is no less than the reported one.
pub proof fn lemma_seek_keys(before: App, action: Action, after: App, effects: Seq<Effect>)
    requires
        action is SeekForward || action is SeekBackward,
        spec_update_action(before, action, after, effects),
    ensures
        after == (App { pending_count: None, ..before }),
        effects.len() == 1,
        effects[0] matches Effect::Player(PlayerCommand::Seek(target)) && {
            let reported = before.playback.position_ms as int;
            let forward = action is SeekForward;
            let step_from = |from: int|
                if forward {
                    if from + 10_000 > u32::MAX { u32::MAX as int } else { from + 10_000 }
                } else {
                    if from < 10_000 { 0 } else { from - 10_000 }
                };
            &&& before.playback.position_at is None ==> target == step_from(reported)
            &&& before.playback.position_at is Some ==> exists|shown: u32|
                #![trigger step_from(shown as int)]
                shown >= reported && target == step_from(shown as int)
        },
{
    let reported = before.playback.position_ms as int;
    let forward = action is SeekForward;
    let step_from = |from: int|
        if forward {
            if from + 10_000 > u32::MAX { u32::MAX as int } else { from + 10_000 }
        } else {
            if from < 10_000 { 0 } else { from - 10_000 }
        };
    if let Effect::Player(PlayerCommand::Seek(target)) = effects[0] {
        let shown = choose|reading: u32|
            #[trigger] crate::app::spec_position_reading(before.playback, reading) && target == (if forward {
                reading.saturating_add(crate::app::SEEK_STEP_MS)
            } else {
                reading.saturating_sub(crate::app::SEEK_STEP_MS)
            });
        assert(target == step_from(shown as int));
    }
}

/// Moving the focus changes only the focus and clears the count.
pub proof fn lemma_focus_keys(before: App, action: Action, after: App, effects: Seq<Effect>)
    requires
        action is FocusSidebar || action is FocusMain,
        spec_update_action(before, action, after, effects),
    ensures
        effects.len() == 0,
        action is FocusSidebar ==> after == (App { focus: Focus::Sidebar, pending_count: None, ..before }),
        action is FocusMain ==> after == (App { focus: Focus::Main, pending_count: None, ..before }),
{
}

/// Enter in the track list plays every uri of the shown source, starting at
/// the selected row; with no row selected it does nothing.
pub proof fn lemma_enter_plays_from_the_cursor(before: App, after: App, effects: Seq<Effect>)
    requires
        before.focus == Focus::Main,
        spec_update_action(before, Action::Select, after, effects),
    ensures
        after == (App { pending_count: None, ..before }),
        before.track_list.index matches Some(row) ==> {
            &&& effects.len() == 1
            &&& effects[0] matches Effect::Player(PlayerCommand::Load { uris, start_index })
            &&& uris@ == before.track_uris@
            &&& start_index == row
        },
        before.track_list.index is None ==> effects.len() == 0,
{
}

/// Enter on a playlist while connected shows it: the track list takes the
/// focus, starts empty with no row selected, and its tracks are asked for;
/// the playlists and their selection stay.
pub proof fn lemma_enter_opens_the_playlist(before: App, row: usize, after: App, effects: Seq<Effect>)
    requires
        before.focus == Focus::Sidebar,
        before.connection == ConnectionStatus::Connected,
        before.sidebar.index == Some(row),
        row < before.playlists@.len(),
        spec_update_action(before, Action::Select, after, effects),
    ensures
        effects == seq![Effect::Api(LibraryRequest::PlaylistTracks { source: before.playlists@[row as int].source })],
        after.focus == Focus::Main,
        after.tracks_for == Some(before.playlists@[row as int].source),
        after.tracks@.len() == 0,
        after.track_uris@.len() == 0,
        after.track_list.index is None,
        !after.loading_more,
        after.playlists == before.playlists,
        after.sidebar == before.sidebar,
        after.connection == before.connection,
        after.playback == before.playback,
{
}

// ---------------------------------------------------------------------------
// Reports
// ---------------------------------------------------------------------------

/// Whether the track list shows the source with id `id`.
pub open spec fn shows(app: App, id: Seq<char>) -> bool {
    match app.tracks_for {
        Some(shown) => shown@ == id,
        None => false,
    }
}

/// Answers asked on the current connection fill the library: a list of
/// playlists replaces the sidebar, selects its first playlist and asks for
/// that playlist's tracks; a first page of tracks for the shown source
/// replaces the track list and selects its first row; a further page is
/// added after the loaded tracks and ends the wait for it. None asks for
/// anything else.
pub proof fn lemma_answers_fill_the_library(before: App, message: Message, after: App, effects: Seq<Effect>)
    requires
        spec_update_message(before, message, after, effects),
    ensures
        match message {
            Message::Playlists { generation, result: Ok(list) } => generation == before.library_generation ==> {
                &&& after.playlists == list
                &&& after.sidebar.index == Some(0usize)
                &&& list@.len() > 0 ==> {
                    &&& effects == seq![Effect::Api(LibraryRequest::PlaylistTracks { source: list@[0].source })]
                    &&& after.tracks_for == Some(list@[0].source)
                    &&& after.tracks@.len() == 0
                }
                &&& list@.len() == 0 ==> effects.len() == 0
            },
            Message::Tracks { generation, source, result: Ok(page) } => (generation == before.library_generation
                && shows(before, source@)) ==> {
                &&& after.tracks == page.tracks
                &&& after.track_uris == page.uris
                &&& after.track_list.index == Some(0usize)
                &&& effects.len() == 0
            },
            Message::MoreTracks { generation, source, result: Ok(more) } => (generation
                == before.library_generation && shows(before, source@)) ==> {
                &&& after.tracks@ == before.tracks@ + more@
                &&& !after.loading_more
                &&& after.track_uris == before.track_uris
                &&& after.track_list == before.track_list
                &&& effects.len() == 0
            },
            _ => true,
        },
{
}

/// The connection reports set what the status says of the connection: a
/// drop starts reconnecting, a return connects, a loss waits for the user.
/// None asks for anything, and a tick changes nothing.
pub proof fn lemma_connection_reports(before: App, message: Message, after: App, effects: Seq<Effect>)
    requires
        spec_update_message(before, message, after, effects),
    ensures
        message matches Message::Player(update) ==> effects.len() == 0,
        message matches Message::Player(PlayerUpdate::Disconnected) ==> after.connection
            == ConnectionStatus::Reconnecting,
        message matches Message::Player(PlayerUpdate::Reconnected) ==> after.connection == ConnectionStatus::Connected,
        message matches Message::Player(PlayerUpdate::ConnectionLost(_)) ==> after.connection
            == ConnectionStatus::Lost,
        message is Tick ==> after == before && effects.len() == 0,
{
}


/// A digit only grows the pending count: the count so far times ten plus
/// the digit, stopping at `usize::MAX`; a leading zero starts no count.
/// Nothing else changes and nothing is asked for.
pub proof fn lemma_digits_only_count(before: App, digit: u8, after: App, effects: Seq<Effect>)
    requires
        spec_update_action(before, Action::Digit(digit), after, effects),
    ensures
        effects.len() == 0,
        after == (App { pending_count: after.pending_count, ..before }),
        digit == 0 && before.pending_count is None ==> after.pending_count is None,
        !(digit == 0 && before.pending_count is None) ==> {
            let so_far: int = match before.pending_count {
                Some(c) => c as int,
                None => 0,
            };
            after.pending_count == Some(
                if so_far * 10 + digit > usize::MAX { usize::MAX } else { (so_far * 10 + digit) as usize },
            )
        },
{
}

/// A library error asked on the current connection, for the shown source
/// where it concerns tracks, is put on the status line while connected; a
/// failed further page also ends the wait for it. Nothing is asked for.
pub proof fn lemma_library_errors_are_shown(before: App, message: Message, after: App, effects: Seq<Effect>)
    requires
        before.connection == ConnectionStatus::Connected,
        spec_update_message(before, message, after, effects),
    ensures
        match message {
            Message::Playlists { generation, result: Err(error) } => generation == before.library_generation ==> {
                &&& after == (App { status: Some(crate::app::Status::Error(error)), ..before })
                &&& effects.len() == 0
            },
            Message::Tracks { generation, source, result: Err(error) } => (generation == before.library_generation
                && shows(before, source@)) ==> {
                &&& after == (App { status: Some(crate::app::Status::Error(error)), ..before })
                &&& effects.len() == 0
            },
            Message::MoreTracks { generation, source, result: Err(error) } => (generation
                == before.library_generation && shows(before, source@)) ==> {
                &&& after == (App { status: Some(crate::app::Status::Error(error)), loading_more: false, ..before })
                &&& effects.len() == 0
            },
            _ => true,
        },
{
}

} // verus!
