//! The application state and how actions and messages change it.
use std::time::Instant;

use vstd::prelude::*;

use crate::action::Action;
use crate::clock;
use crate::message::Message;
use crate::model::{LibraryItem, Source, Track, PAGE_SIZE};
use crate::player::{PlayerCommand, PlayerUpdate, DEFAULT_VOLUME};
use crate::theme::Theme;

verus! {

/// How close to the end of the loaded tracks the cursor may come before the
/// next page is asked for.
pub const LOAD_MORE_MARGIN: usize = 10;

/// How far one seek moves, in milliseconds.
pub const SEEK_STEP_MS: u32 = 10_000;

/// How much one volume step changes the volume.
pub const VOLUME_STEP: u16 = 4096;

// ---------------------------------------------------------------------------
// Selections
// ---------------------------------------------------------------------------

/// `x` saturated into the range of `usize`.
pub open spec fn clamp_usize(x: int) -> usize {
    if x < 0 {
        0
    } else if x > usize::MAX {
        usize::MAX
    } else {
        x as usize
    }
}

/// The selection after moving `delta` rows in a list of `len` rows: from the
/// current row (the first when none is selected), saturating at the ends.
/// An empty list keeps its selection.
pub open spec fn spec_moved(index: Option<usize>, len: usize, delta: int) -> Option<usize> {
    if len == 0 {
        index
    } else {
        let current: int = match index {
            Some(i) => i as int,
            None => 0,
        };
        let target = clamp_usize(current + delta);
        Some(if target < len { target } else { (len - 1) as usize })
    }
}

/// The selection after jumping to row number `row` (counted from one) in a
/// list of `len` rows, stopping at the last row. An empty list keeps its
/// selection.
pub open spec fn spec_row(index: Option<usize>, len: usize, row: usize) -> Option<usize> {
    if len == 0 {
        index
    } else {
        let target: usize = if row == 0 { 0 } else { (row - 1) as usize };
        Some(if target < len { target } else { (len - 1) as usize })
    }
}

/// Which row of a list is selected.
#[derive(Debug, Clone, Copy, PartialEq, Eq, Structural)]
pub struct Selection {
    pub index: Option<usize>,
}

impl Selection {
    /// A selection of `index`.
    pub fn with_selected(index: Option<usize>) -> (selection: Selection)
        ensures
            selection.index == index,
    {
        Selection { index }
    }

    /// The selected row.
    pub fn selected(&self) -> (index: Option<usize>)
        ensures
            index == self.index,
    {
        self.index
    }

    /// Selects `index`.
    pub fn select(&mut self, index: Option<usize>)
        ensures
            final(self).index == index,
    {
        self.index = index;
    }

    /// Moves the selection `delta` rows in a list of `len` rows.
    pub fn move_by(&mut self, len: usize, delta: isize)
        ensures
            final(self).index == spec_moved(old(self).index, len, delta as int),
    {
        if len == 0 {
            return;
        }
        let current: usize = match self.index {
            Some(i) => i,
            None => 0,
        };
        let target: usize = if delta >= 0 {
            let step = delta as usize;
            if current > usize::MAX - step {
                usize::MAX
            } else {
                current + step
            }
        } else {
            let step: usize = ((-(delta + 1)) as usize) + 1;
            if current < step {
                0
            } else {
                current - step
            }
        };
        let last = len - 1;
        self.index = Some(if target < len { target } else { last });
    }

    /// Selects row number `row` (counted from one) of a list of `len` rows.
    pub fn select_row(&mut self, len: usize, row: usize)
        ensures
            final(self).index == spec_row(old(self).index, len, row),
    {
        if len == 0 {
            return;
        }
        let target: usize = if row == 0 { 0 } else { row - 1 };
        let last = len - 1;
        self.index = Some(if target < len { target } else { last });
    }
}

// ---------------------------------------------------------------------------
// Playback
// ---------------------------------------------------------------------------

/// The track that is playing.
#[derive(Debug, Clone, PartialEq, Eq)]
pub struct NowPlaying {
    pub name: String,
    pub artists: Vec<String>,
    pub album: String,
    pub duration_ms: u32,
    pub uri: String,
}

/// What the player last reported, and a clock that advances the position
/// while playing.
#[derive(Debug, Clone, PartialEq, Eq)]
pub struct Playback {
    pub track: Option<NowPlaying>,
    /// The position the player last reported, in milliseconds.
    pub position_ms: u32,
    /// When the player reported that position, while it is playing.
    pub position_at: Option<Instant>,
    pub volume: u16,
}

/// `position_ms` advanced by `elapsed_ms`, stopping at `u32::MAX`.
pub open spec fn spec_advanced(position_ms: u32, elapsed_ms: u128) -> u32 {
    if position_ms + elapsed_ms > u32::MAX {
        u32::MAX
    } else {
        (position_ms + elapsed_ms) as u32
    }
}

/// `position_ms` advanced by `elapsed_ms` milliseconds, stopping at `u32::MAX`.
pub fn advanced(position_ms: u32, elapsed_ms: u128) -> (position: u32)
    ensures
        position == spec_advanced(position_ms, elapsed_ms),
{
    let elapsed: u32 = if elapsed_ms > u32::MAX as u128 {
        u32::MAX
    } else {
        elapsed_ms as u32
    };
    position_ms.saturating_add(elapsed)
}

/// Whether `reading` is a position that the playback can show now: the
/// reported position while paused, and no less than it while the clock runs.
pub open spec fn spec_position_reading(playback: Playback, reading: u32) -> bool {
    match playback.position_at {
        Some(_) => reading >= playback.position_ms,
        None => reading == playback.position_ms,
    }
}

/// The position `elapsed_ms` milliseconds after the player reported it.
pub open spec fn spec_position_after(playback: Playback, elapsed_ms: u128) -> u32 {
    match playback.position_at {
        Some(_) => spec_advanced(playback.position_ms, elapsed_ms),
        None => playback.position_ms,
    }
}

/// How `update` changes the playback from `before` to `after` when the
/// clock reads `now`.
pub open spec fn spec_applied_at(before: Playback, after: Playback, update: PlayerUpdate, now: Instant) -> bool {
    match update {
        PlayerUpdate::TrackChanged { name, artists, album, duration_ms, uri } => after == (Playback {
            track: Some(NowPlaying { name, artists, album, duration_ms, uri }),
            ..before
        }),
        PlayerUpdate::Playing { position_ms } => after == (Playback {
            position_ms,
            position_at: Some(now),
            ..before
        }),
        PlayerUpdate::Paused { position_ms } => after == (Playback {
            position_ms,
            position_at: None,
            ..before
        }),
        PlayerUpdate::Seeked { position_ms } => after == (Playback {
            position_ms,
            position_at: if before.position_at is Some { Some(now) } else { None },
            ..before
        }),
        PlayerUpdate::Volume(volume) => after == (Playback { volume, ..before }),
        PlayerUpdate::Stopped | PlayerUpdate::Disconnected => after == (Playback {
            track: None,
            position_ms: 0,
            position_at: None,
            ..before
        }),
        PlayerUpdate::Reconnected | PlayerUpdate::ConnectionLost(_) => after == before,
    }
}

/// How `update` changes the playback from `before` to `after`, for the clock
/// reading taken when the update is applied.
pub open spec fn spec_applied(before: Playback, after: Playback, update: PlayerUpdate) -> bool {
    exists|now: Instant| #[trigger] spec_applied_at(before, after, update, now)
}

impl Playback {
    /// The position now: the reported one, plus the time that passed since
    /// the player reported it while playing.
    pub fn current_position_ms(&self) -> (position: u32)
        ensures
            spec_position_reading(*self, position),
            exists|elapsed_ms: u128| position == #[trigger] spec_position_after(*self, elapsed_ms),
    {
        match &self.position_at {
            Some(at) => {
                let elapsed = clock::millis_since(at);
                self.position_after(elapsed)
            },
            None => {
                assert(self.position_ms == spec_position_after(*self, 0));
                self.position_ms
            },
        }
    }

    /// The position `elapsed_ms` milliseconds after the player reported it:
    /// advanced by that time while playing, the reported one while paused.
    pub fn position_after(&self, elapsed_ms: u128) -> (position: u32)
        ensures
            position == spec_position_after(*self, elapsed_ms),
    {
        match &self.position_at {
            Some(_) => advanced(self.position_ms, elapsed_ms),
            None => self.position_ms,
        }
    }

    /// Takes in a report of the player, reading the clock for the moment
    /// from which the position advances.
    pub fn apply(&mut self, update: PlayerUpdate)
        ensures
            spec_applied(*old(self), *final(self), update),
    {
        let now = clock::now();
        self.apply_at(update, now);
        assert(spec_applied_at(*old(self), *final(self), update, now));
    }

    /// Takes in a report of the player when the clock reads `now`.
    pub fn apply_at(&mut self, update: PlayerUpdate, now: Instant)
        ensures
            spec_applied_at(*old(self), *final(self), update, now),
    {
        match update {
            PlayerUpdate::TrackChanged { name, artists, album, duration_ms, uri } => {
                self.track = Some(NowPlaying { name, artists, album, duration_ms, uri });
            },
            PlayerUpdate::Playing { position_ms } => {
                self.position_ms = position_ms;
                self.position_at = Some(now);
            },
            PlayerUpdate::Paused { position_ms } => {
                self.position_ms = position_ms;
                self.position_at = None;
            },
            PlayerUpdate::Seeked { position_ms } => {
                self.position_ms = position_ms;
                if self.position_at.is_some() {
                    self.position_at = Some(now);
                }
            },
            PlayerUpdate::Volume(volume) => self.volume = volume,
            PlayerUpdate::Stopped | PlayerUpdate::Disconnected => {
                self.track = None;
                self.position_ms = 0;
                self.position_at = None;
            },
            PlayerUpdate::Reconnected | PlayerUpdate::ConnectionLost(_) => {},
        }
    }

    /// Whether the player is playing.
    pub fn is_playing(&self) -> (playing: bool)
        ensures
            playing == (self.position_at is Some),
    {
        self.position_at.is_some()
    }
}

impl Default for Playback {
    fn default() -> (playback: Playback)
        ensures
            playback == (Playback { track: None, position_ms: 0, position_at: None, volume: DEFAULT_VOLUME }),
    {
        Playback { track: None, position_ms: 0, position_at: None, volume: DEFAULT_VOLUME }
    }
}

// ---------------------------------------------------------------------------
// The application
// ---------------------------------------------------------------------------

/// The pane that receives motions and selections.
#[derive(Debug, Clone, Copy, PartialEq, Eq, Structural)]
pub enum Focus {
    Sidebar,
    Main,
}

/// The state of the connection to Spotify.
#[derive(Debug, Clone, Copy, PartialEq, Eq, Structural)]
pub enum ConnectionStatus {
    Connected,
    Reconnecting,
    Lost,
}

/// An input of the application: an action of the user, or a report.
#[derive(Debug)]
pub enum Input {
    Action(Action),
    Message(Message),
}

/// A request for the Spotify library.
#[derive(Debug, Clone, PartialEq, Eq)]
pub enum LibraryRequest {
    Playlists,
    PlaylistTracks { source: Source },
    MoreTracks { source: Source, uris: Vec<String> },
}

/// Outside work that an update asks for.
#[derive(Debug, PartialEq, Eq)]
pub enum Effect {
    Api(LibraryRequest),
    Quit,
    Player(PlayerCommand),
}

/// The line at the bottom of the screen.
#[derive(Debug, Clone, PartialEq, Eq)]
pub enum Status {
    Info(String),
    Error(String),
}

impl Status {
    /// The text of the status line.
    pub fn text(&self) -> (text: &str)
        ensures
            text@ == spec_status_text(*self),
    {
        match self {
            Status::Info(text) => text.as_str(),
            Status::Error(text) => text.as_str(),
        }
    }
}

/// The text of a status line.
pub open spec fn spec_status_text(status: Status) -> Seq<char> {
    match status {
        Status::Info(text) => text@,
        Status::Error(text) => text@,
    }
}

/// Whether `status` is a line of the given kind with `text`.
pub open spec fn status_says(status: Option<Status>, error: bool, text: Seq<char>) -> bool {
    match status {
        Some(Status::Info(t)) => !error && t@ == text,
        Some(Status::Error(t)) => error && t@ == text,
        None => false,
    }
}

/// Everything the screen shows, and what the application waits for.
pub struct App {
    pub focus: Focus,
    /// The count typed before a motion, if any.
    pub pending_count: Option<usize>,
    pub connection: ConnectionStatus,
    /// Counts the connections: library answers asked on an earlier one are ignored.
    pub library_generation: u64,
    pub playlists: Vec<LibraryItem>,
    pub sidebar: Selection,
    /// The tracks whose details are loaded, in playlist order.
    pub tracks: Vec<Track>,
    pub track_list: Selection,
    /// The source whose tracks are shown.
    pub tracks_for: Option<Source>,
    /// The uris of every track of the shown source.
    pub track_uris: Vec<String>,
    /// Whether a further page of track details was asked for and not yet answered.
    pub loading_more: bool,
    pub status: Option<Status>,
    pub playback: Playback,
    pub theme: Theme,
}

/// The state before anything was loaded.
pub open spec fn spec_fresh_app(app: App) -> bool {
    &&& app.focus == Focus::Sidebar
    &&& app.pending_count is None
    &&& app.connection == ConnectionStatus::Connected
    &&& app.library_generation == 0
    &&& app.playlists@.len() == 0
    &&& app.sidebar == Selection { index: Some(0) }
    &&& app.tracks@.len() == 0
    &&& app.track_list == Selection { index: None }
    &&& app.tracks_for is None
    &&& app.track_uris@.len() == 0
    &&& !app.loading_more
    &&& app.status is None
    &&& app.playback == (Playback { track: None, position_ms: 0, position_at: None, volume: DEFAULT_VOLUME })
    &&& app.theme == crate::theme::spec_default_theme()
}

/// `count` multiplied by ten, stopping at `usize::MAX`.
pub open spec fn spec_times_ten(count: usize) -> usize {
    if count * 10 > usize::MAX {
        usize::MAX
    } else {
        (count * 10) as usize
    }
}

/// The pending count after typing `digit`. A leading zero starts no count.
pub open spec fn spec_push_digit(count: Option<usize>, digit: u8) -> Option<usize> {
    if digit == 0 && count is None {
        None
    } else {
        let current: usize = match count {
            Some(c) => c,
            None => 0,
        };
        Some(spec_times_ten(current).saturating_add(digit as usize))
    }
}

/// Whether the library can be used: the connection is up.
pub open spec fn spec_library_available(app: App) -> bool {
    app.connection == ConnectionStatus::Connected
}

/// Whether the shown tracks belong to `source`.
pub open spec fn spec_is_showing(app: App, source: Source) -> bool {
    match app.tracks_for {
        Some(shown) => shown@ == source@,
        None => false,
    }
}

/// The number of rows of the focused list.
pub open spec fn focused_len(app: App) -> usize {
    match app.focus {
        Focus::Sidebar => app.playlists@.len() as usize,
        Focus::Main => app.tracks@.len() as usize,
    }
}

/// The selected row of the focused list.
pub open spec fn focused_index(app: App) -> Option<usize> {
    match app.focus {
        Focus::Sidebar => app.sidebar.index,
        Focus::Main => app.track_list.index,
    }
}

/// `app` with the selection of its focused list set to `index`.
pub open spec fn with_focused(app: App, index: Option<usize>) -> App {
    match app.focus {
        Focus::Sidebar => App { sidebar: Selection { index }, ..app },
        Focus::Main => App { track_list: Selection { index }, ..app },
    }
}

/// How many rows a motion with `count` moves: the count, or one.
pub open spec fn spec_row_delta(count: Option<usize>) -> int {
    match count {
        Some(c) => if c > isize::MAX { isize::MAX as int } else { c as int },
        None => 1,
    }
}

/// Whether `action` moves the selection.
pub open spec fn is_motion(action: Action) -> bool {
    action is MoveDown || action is MoveUp || action is GoTop || action is GoBottom
}

/// The selection of the focused list after the motion `action` with `count`.
pub open spec fn motion_target(app: App, action: Action, count: Option<usize>) -> Option<usize> {
    let index = focused_index(app);
    let len = focused_len(app);
    match action {
        Action::MoveDown => spec_moved(index, len, spec_row_delta(count)),
        Action::MoveUp => spec_moved(index, len, -spec_row_delta(count)),
        Action::GoTop => spec_moved(index, len, isize::MIN as int),
        Action::GoBottom => match count {
            Some(row) => spec_row(index, len, row),
            None => spec_moved(index, len, isize::MAX as int),
        },
        _ => index,
    }
}

/// Whether the state is one in which a further page may be due: the track
/// list has focus, nothing is loading, the library is available and a row is
/// selected. The page is due when the cursor is within the margin of the last
/// loaded track and a source is shown.
pub open spec fn more_considered(app: App) -> bool {
    &&& app.focus == Focus::Main
    &&& !app.loading_more
    &&& spec_library_available(app)
    &&& app.track_list.index is Some
}

/// Whether the cursor is close enough to the end to ask for the next page of `app.tracks_for`.
pub open spec fn more_due(app: App) -> bool {
    &&& more_considered(app)
    &&& app.track_list.index->0 + LOAD_MORE_MARGIN >= app.tracks@.len()
    &&& app.tracks_for is Some
}

/// The states in which asking for the next page would fail: the cursor plus
/// the margin leaves the range of `usize`, or more tracks are loaded than
/// there are uris.
pub open spec fn more_fails(app: App) -> bool {
    &&& more_considered(app)
    &&& {
        ||| app.track_list.index->0 + LOAD_MORE_MARGIN > usize::MAX
        ||| (more_due(app) && app.tracks@.len() > app.track_uris@.len())
    }
}

/// The uris of the next page: those after the loaded tracks, at most a page.
pub open spec fn spec_next_page(app: App) -> Seq<String> {
    let from = app.tracks@.len();
    let to: int = if from + PAGE_SIZE <= app.track_uris@.len() {
        from + PAGE_SIZE
    } else {
        app.track_uris@.len() as int
    };
    app.track_uris@.subrange(from as int, to as int)
}

/// After a motion: when the next page is due and there are uris left, it is
/// asked for once; otherwise nothing changes.
pub open spec fn spec_loads_more(before: App, after: App, effects: Seq<Effect>) -> bool {
    if more_due(before) && before.tracks@.len() < before.track_uris@.len() {
        &&& after == (App { loading_more: true, ..before })
        &&& effects.len() == 1
        &&& effects[0] matches Effect::Api(LibraryRequest::MoreTracks { source, uris })
        &&& before.tracks_for == Some(source)
        &&& uris@ == spec_next_page(before)
    } else {
        &&& after == before
        &&& effects.len() == 0
    }
}

/// Shows `source` with nothing loaded yet, and asks for its first page.
pub open spec fn spec_requests_tracks(before: App, source: Source, after: App, effects: Seq<Effect>) -> bool {
    &&& after.tracks@.len() == 0
    &&& after.track_uris@.len() == 0
    &&& after == (App {
        tracks: after.tracks,
        track_list: Selection { index: None },
        track_uris: after.track_uris,
        tracks_for: Some(source),
        loading_more: false,
        ..before
    })
    &&& effects == seq![Effect::Api(LibraryRequest::PlaylistTracks { source })]
}

/// Select in the sidebar: when the library is available and a playlist is
/// selected, focus the track list and ask for the playlist's tracks.
pub open spec fn spec_selects_playlist(before: App, after: App, effects: Seq<Effect>) -> bool {
    match before.sidebar.index {
        Some(i) => if spec_library_available(before) && i < before.playlists@.len() {
            spec_requests_tracks(
                App { focus: Focus::Main, ..before },
                before.playlists@[i as int].source,
                after,
                effects,
            )
        } else {
            after == before && effects.len() == 0
        },
        None => after == before && effects.len() == 0,
    }
}

/// Select in the track list: play every track of the source, starting at the selected one.
pub open spec fn spec_plays_selected(before: App, after: App, effects: Seq<Effect>) -> bool {
    &&& after == before
    &&& match before.track_list.index {
        Some(start) => {
            &&& effects.len() == 1
            &&& effects[0] matches Effect::Player(PlayerCommand::Load { uris, start_index })
            &&& uris@ == before.track_uris@
            &&& start_index == start
        },
        None => effects.len() == 0,
    }
}

/// Whether `effects` is one seek to `position` plus or minus a step (as
/// `forward` says) from a position that the playback can show.
pub open spec fn spec_seeks(playback: Playback, forward: bool, effects: Seq<Effect>) -> bool {
    &&& effects.len() == 1
    &&& effects[0] matches Effect::Player(PlayerCommand::Seek(target))
    &&& exists|reading: u32|
        #![trigger spec_position_reading(playback, reading)]
        spec_position_reading(playback, reading) && target == (if forward {
            reading.saturating_add(SEEK_STEP_MS)
        } else {
            reading.saturating_sub(SEEK_STEP_MS)
        })
}

/// Whether an action would make `update_action` fail: a motion after which a
/// further page would be asked for from a state in which that fails.
pub open spec fn spec_action_fails(app: App, action: Action) -> bool {
    &&& is_motion(action)
    &&& more_fails(with_focused(App { pending_count: None, ..app }, motion_target(app, action, app.pending_count)))
}

/// What an action does to the application and what it asks for.
pub open spec fn spec_update_action(before: App, action: Action, after: App, effects: Seq<Effect>) -> bool {
    let count = before.pending_count;
    let base = App { pending_count: None, ..before };
    match action {
        Action::Digit(digit) => {
            &&& after == (App { pending_count: spec_push_digit(count, digit), ..before })
            &&& effects.len() == 0
        },
        Action::MoveDown | Action::MoveUp | Action::GoTop | Action::GoBottom => spec_loads_more(
            with_focused(base, motion_target(before, action, count)),
            after,
            effects,
        ),
        Action::FocusSidebar => after == (App { focus: Focus::Sidebar, ..base }) && effects.len() == 0,
        Action::FocusMain => after == (App { focus: Focus::Main, ..base }) && effects.len() == 0,
        Action::Select => match before.focus {
            Focus::Sidebar => spec_selects_playlist(base, after, effects),
            Focus::Main => spec_plays_selected(base, after, effects),
        },
        Action::PlayPause => after == base && effects == seq![Effect::Player(PlayerCommand::PlayPause)],
        Action::Next => after == base && effects == seq![Effect::Player(PlayerCommand::Next)],
        Action::Prev => after == base && effects == seq![Effect::Player(PlayerCommand::Prev)],
        Action::SeekForward => after == base && spec_seeks(before.playback, true, effects),
        Action::SeekBackward => after == base && spec_seeks(before.playback, false, effects),
        Action::VolumeUp => after == base && effects == seq![
            Effect::Player(PlayerCommand::SetVolume(before.playback.volume.saturating_add(VOLUME_STEP))),
        ],
        Action::VolumeDown => after == base && effects == seq![
            Effect::Player(PlayerCommand::SetVolume(before.playback.volume.saturating_sub(VOLUME_STEP))),
        ],
        Action::Refresh => match before.connection {
            ConnectionStatus::Connected => after == base && effects == seq![Effect::Api(LibraryRequest::Playlists)],
            ConnectionStatus::Reconnecting => after == base && effects.len() == 0,
            ConnectionStatus::Lost => {
                &&& after == (App { connection: ConnectionStatus::Reconnecting, status: after.status, ..base })
                &&& status_says(after.status, false, "reconnecting"@)
                &&& effects == seq![Effect::Player(PlayerCommand::Reconnect)]
            },
        },
        Action::Quit => after == base && effects == seq![Effect::Quit],
    }
}

/// Reports a library error on the status line, unless the connection is
/// down: then the line keeps the reconnect instructions.
pub open spec fn spec_reports_error(before: App, error: String, after: App) -> bool {
    if spec_library_available(before) {
        after == (App { status: Some(Status::Error(error)), ..before })
    } else {
        after == before
    }
}

/// The generation that a library answer was asked on.
pub open spec fn answer_generation(message: Message) -> Option<u64> {
    match message {
        Message::Playlists { generation, .. } => Some(generation),
        Message::Tracks { generation, .. } => Some(generation),
        Message::MoreTracks { generation, .. } => Some(generation),
        _ => None,
    }
}

/// What a connection report does before the playback takes it in.
pub open spec fn spec_connection_report(before: App, update: PlayerUpdate, after: App) -> bool {
    match update {
        PlayerUpdate::Disconnected => {
            &&& after == (App {
                library_generation: (before.library_generation + 1) as u64,
                loading_more: false,
                connection: ConnectionStatus::Reconnecting,
                status: after.status,
                playback: after.playback,
                ..before
            })
            &&& status_says(after.status, true, "connection dropped, reconnecting"@)
        },
        PlayerUpdate::Reconnected => {
            &&& after == (App {
                connection: ConnectionStatus::Connected,
                status: after.status,
                playback: after.playback,
                ..before
            })
            &&& status_says(after.status, true, "reconnected, press enter on a track to play"@)
        },
        PlayerUpdate::ConnectionLost(error) => {
            &&& after == (App {
                connection: ConnectionStatus::Lost,
                status: after.status,
                playback: after.playback,
                ..before
            })
            &&& match error {
                Some(text) => after.status == Some(Status::Error(text)),
                None => status_says(after.status, true, "connection lost, press R to reconnect"@),
            }
        },
        _ => after == (App { playback: after.playback, ..before }),
    }
}

/// What a report does to the application and what it asks for.
pub open spec fn spec_update_message(before: App, message: Message, after: App, effects: Seq<Effect>) -> bool {
    if answer_generation(message) is Some && answer_generation(message)->0 != before.library_generation {
        after == before && effects.len() == 0
    } else {
        match message {
            Message::Playlists { result, .. } => match result {
                Ok(playlists) => {
                    let listed = App { playlists, sidebar: Selection { index: Some(0) }, ..before };
                    if playlists@.len() > 0 {
                        spec_requests_tracks(listed, playlists@[0].source, after, effects)
                    } else {
                        after == listed && effects.len() == 0
                    }
                },
                Err(error) => spec_reports_error(before, error, after) && effects.len() == 0,
            },
            Message::Tracks { source, result, .. } => {
                &&& effects.len() == 0
                &&& if !spec_is_showing(before, source) {
                    after == before
                } else {
                    match result {
                        Ok(page) => after == (App {
                            tracks: page.tracks,
                            track_uris: page.uris,
                            track_list: Selection { index: Some(0) },
                            ..before
                        }),
                        Err(error) => spec_reports_error(before, error, after),
                    }
                }
            },
            Message::MoreTracks { source, result, .. } => {
                &&& effects.len() == 0
                &&& if !spec_is_showing(before, source) {
                    after == before
                } else {
                    let settled = App { loading_more: false, ..before };
                    match result {
                        Ok(tracks) => {
                            &&& after.tracks@ == before.tracks@ + tracks@
                            &&& after == (App { tracks: after.tracks, ..settled })
                        },
                        Err(error) => spec_reports_error(settled, error, after),
                    }
                }
            },
            Message::Player(update) => {
                &&& effects.len() == 0
                &&& spec_connection_report(before, update, after)
                &&& spec_applied(before.playback, after.playback, update)
            },
            Message::Tick => after == before && effects.len() == 0,
        }
    }
}

/// What an input does to the application and what it asks for.
pub open spec fn spec_update(before: App, input: Input, after: App, effects: Seq<Effect>) -> bool {
    match input {
        Input::Action(action) => spec_update_action(before, action, after, effects),
        Input::Message(message) => spec_update_message(before, message, after, effects),
    }
}

/// Whether an input would make `update` fail.
pub open spec fn spec_input_fails(app: App, input: Input) -> bool {
    match input {
        Input::Action(action) => spec_action_fails(app, action),
        Input::Message(message) => spec_message_fails(app, message),
    }
}

/// Whether a report would make `update_message` fail: a disconnect when the
/// generation counter is exhausted.
pub open spec fn spec_message_fails(app: App, message: Message) -> bool {
    message matches Message::Player(PlayerUpdate::Disconnected) && app.library_generation == u64::MAX
}

fn no_effects() -> (effects: Vec<Effect>)
    ensures
        effects@.len() == 0,
{
    Vec::new()
}

fn one_effect(effect: Effect) -> (effects: Vec<Effect>)
    ensures
        effects@ == seq![effect],
{
    let mut effects = Vec::new();
    effects.push(effect);
    effects
}

/// A copy of `strings`.
pub fn copy_strings(strings: &Vec<String>) -> (copy: Vec<String>)
    ensures
        copy@ == strings@,
{
    let mut copy: Vec<String> = Vec::new();
    let n = strings.len();
    let mut i: usize = 0;
    while i < n
        invariant
            n == strings@.len(),
            i <= n,
            copy@ == strings@.take(i as int),
        decreases n - i,
    {
        copy.push(strings[i].clone());
        proof {
            assert(strings@.take(i + 1) =~= strings@.take(i as int).push(strings@[i as int]));
        }
        i = i + 1;
    }
    proof {
        assert(strings@.take(n as int) =~= strings@);
    }
    copy
}

impl App {
    /// The application before anything was loaded.
    pub fn new() -> (app: App)
        ensures
            spec_fresh_app(app),
    {
        App {
            focus: Focus::Sidebar,
            pending_count: None,
            connection: ConnectionStatus::Connected,
            library_generation: 0,
            playlists: Vec::new(),
            sidebar: Selection::with_selected(Some(0)),
            tracks: Vec::new(),
            track_list: Selection::with_selected(None),
            tracks_for: None,
            track_uris: Vec::new(),
            loading_more: false,
            status: None,
            playback: Playback::default(),
            theme: Theme::default(),
        }
    }

    /// Adds a typed digit to the pending count. A leading zero starts no count.
    pub fn push_digit(&mut self, digit: u8)
        ensures
            *final(self) == (App { pending_count: spec_push_digit(old(self).pending_count, digit), ..*old(self) }),
    {
        if digit == 0 && self.pending_count.is_none() {
            return;
        }
        let current: usize = match self.pending_count {
            Some(c) => c,
            None => 0,
        };
        let times_ten: usize = if current > usize::MAX / 10 {
            usize::MAX
        } else {
            current * 10
        };
        self.pending_count = Some(times_ten.saturating_add(digit as usize));
    }

    /// The playlist selected in the sidebar.
    pub fn selected_playlist(&self) -> (playlist: Option<&LibraryItem>)
        ensures
            match self.sidebar.index {
                Some(i) => if i < self.playlists@.len() {
                    playlist == Some(&self.playlists@[i as int])
                } else {
                    playlist is None
                },
                None => playlist is None,
            },
    {
        match self.sidebar.selected() {
            Some(i) => if i < self.playlists.len() {
                Some(&self.playlists[i])
            } else {
                None
            },
            None => None,
        }
    }

    /// The track selected in the track list.
    pub fn selected_track(&self) -> (track: Option<&Track>)
        ensures
            match self.track_list.index {
                Some(i) => if i < self.tracks@.len() {
                    track == Some(&self.tracks@[i as int])
                } else {
                    track is None
                },
                None => track is None,
            },
    {
        match self.track_list.selected() {
            Some(i) => if i < self.tracks.len() {
                Some(&self.tracks[i])
            } else {
                None
            },
            None => None,
        }
    }

    /// Whether the shown tracks belong to `source`.
    pub fn is_showing(&self, source: &Source) -> (showing: bool)
        ensures
            showing == spec_is_showing(*self, *source),
    {
        match &self.tracks_for {
            Some(shown) => shown.same_as(source),
            None => false,
        }
    }

    /// The sidebar entry of the shown source: the first with that source.
    pub fn showing_playlist(&self) -> (playlist: Option<&LibraryItem>)
        ensures
            match self.tracks_for {
                Some(shown) => match playlist {
                    Some(p) => exists|i: int|
                        0 <= i < self.playlists@.len() && *p == self.playlists@[i] && p.source@ == shown@
                            && forall|j: int| 0 <= j < i ==> self.playlists@[j].source@ != shown@,
                    None => forall|j: int| 0 <= j < self.playlists@.len() ==> self.playlists@[j].source@ != shown@,
                },
                None => playlist is None,
            },
    {
        let shown = match &self.tracks_for {
            Some(shown) => shown,
            None => return None,
        };
        let n = self.playlists.len();
        let mut i: usize = 0;
        while i < n
            invariant
                n == self.playlists@.len(),
                i <= n,
                self.tracks_for == Some(*shown),
                forall|j: int| 0 <= j < i ==> self.playlists@[j].source@ != shown@,
            decreases n - i,
        {
            if self.playlists[i].source.same_as(shown) {
                return Some(&self.playlists[i]);
            }
            i = i + 1;
        }
        None
    }

    /// This application with `theme`.
    pub fn with_theme(self, theme: Theme) -> (app: App)
        ensures
            app == (App { theme, ..self }),
    {
        let mut app = self;
        app.theme = theme;
        app
    }

    /// The text of the status line, if any.
    pub fn status_text(&self) -> (text: Option<&str>)
        ensures
            match self.status {
                Some(status) => text matches Some(t) && t@ == spec_status_text(status),
                None => text is None,
            },
    {
        match &self.status {
            Some(status) => Some(status.text()),
            None => None,
        }
    }

    /// Records that the player task is gone: the connection is lost, and the
    /// status line says that the player stopped.
    pub fn player_stopped(&mut self)
        ensures
            *final(self) == (App { connection: ConnectionStatus::Lost, status: final(self).status, ..*old(self) }),
            status_says(final(self).status, true, "player stopped"@),
    {
        self.connection = ConnectionStatus::Lost;
        self.status = Some(Status::Error(String::from_str("player stopped")));
    }

    /// The uri of the track that is playing.
    pub fn playing_uri(&self) -> (uri: Option<&str>)
        ensures
            match self.playback.track {
                Some(track) => uri matches Some(u) && u@ == track.uri@,
                None => uri is None,
            },
    {
        match &self.playback.track {
            Some(track) => Some(track.uri.as_str()),
            None => None,
        }
    }
}

fn library_available(app: &App) -> (available: bool)
    ensures
        available == spec_library_available(*app),
{
    app.connection == ConnectionStatus::Connected
}

/// Reports a library error on the status line while the library is available.
fn report_error(app: &mut App, error: String)
    ensures
        spec_reports_error(*old(app), error, *final(app)),
{
    if library_available(app) {
        app.status = Some(Status::Error(error));
    }
}

/// How many rows a motion with `count` moves.
pub fn row_delta(count: Option<usize>) -> (delta: isize)
    ensures
        delta as int == spec_row_delta(count),
        delta >= 0,
{
    match count {
        Some(c) => if c > isize::MAX as usize {
            isize::MAX
        } else {
            c as isize
        },
        None => 1,
    }
}

fn move_focused(app: &mut App, delta: isize)
    ensures
        *final(app) == with_focused(*old(app), spec_moved(focused_index(*old(app)), focused_len(*old(app)), delta as int)),
{
    match app.focus {
        Focus::Sidebar => {
            let len = app.playlists.len();
            app.sidebar.move_by(len, delta);
        },
        Focus::Main => {
            let len = app.tracks.len();
            app.track_list.move_by(len, delta);
        },
    }
}

fn select_focused_row(app: &mut App, row: usize)
    ensures
        *final(app) == with_focused(*old(app), spec_row(focused_index(*old(app)), focused_len(*old(app)), row)),
{
    match app.focus {
        Focus::Sidebar => {
            let len = app.playlists.len();
            app.sidebar.select_row(len, row);
        },
        Focus::Main => {
            let len = app.tracks.len();
            app.track_list.select_row(len, row);
        },
    }
}

/// Shows `source` with nothing loaded and asks for its first page.
fn request_tracks(app: &mut App, source: Source) -> (effects: Vec<Effect>)
    ensures
        spec_requests_tracks(*old(app), source, *final(app), effects@),
{
    app.tracks.clear();
    app.track_list.select(None);
    app.track_uris.clear();
    app.tracks_for = Some(source.copy());
    app.loading_more = false;
    one_effect(Effect::Api(LibraryRequest::PlaylistTracks { source }))
}

fn select_playlist(app: &mut App) -> (effects: Vec<Effect>)
    ensures
        spec_selects_playlist(*old(app), *final(app), effects@),
{
    if !library_available(app) {
        return no_effects();
    }
    let index = match app.sidebar.selected() {
        Some(i) => i,
        None => return no_effects(),
    };
    if index >= app.playlists.len() {
        return no_effects();
    }
    let source = app.playlists[index].source.copy();
    app.focus = Focus::Main;
    request_tracks(app, source)
}

fn play_selected(app: &App) -> (effects: Vec<Effect>)
    ensures
        spec_plays_selected(*app, *app, effects@),
{
    let start_index = match app.track_list.selected() {
        Some(start) => start,
        None => return no_effects(),
    };
    let uris = copy_strings(&app.track_uris);
    one_effect(Effect::Player(PlayerCommand::Load { uris, start_index }))
}

/// The uris after the loaded tracks, at most a page.
fn next_page(app: &App) -> (uris: Vec<String>)
    requires
        app.tracks@.len() <= app.track_uris@.len(),
    ensures
        uris@ == spec_next_page(*app),
{
    let from = app.tracks.len();
    let total = app.track_uris.len();
    let to = if total - from >= PAGE_SIZE {
        from + PAGE_SIZE
    } else {
        total
    };
    let mut uris: Vec<String> = Vec::new();
    let mut i = from;
    while i < to
        invariant
            from <= i <= to,
            to <= total,
            total == app.track_uris@.len(),
            from == app.tracks@.len(),
            to == (if from + PAGE_SIZE <= total { from + PAGE_SIZE } else { total as int }),
            uris@ == app.track_uris@.subrange(from as int, i as int),
        decreases to - i,
    {
        uris.push(app.track_uris[i].clone());
        proof {
            assert(app.track_uris@.subrange(from as int, i + 1) =~= app.track_uris@.subrange(
                from as int,
                i as int,
            ).push(app.track_uris@[i as int]));
        }
        i = i + 1;
    }
    uris
}

/// Asks for the next page of track details when the cursor comes near the
/// end of the loaded tracks.
fn load_more_if_near_end(app: &mut App) -> (effects: Vec<Effect>)
    requires
        !more_fails(*old(app)),
    ensures
        spec_loads_more(*old(app), *final(app), effects@),
{
    if app.focus != Focus::Main || app.loading_more || !library_available(app) {
        return no_effects();
    }
    let selected = match app.track_list.selected() {
        Some(s) => s,
        None => return no_effects(),
    };
    if selected + LOAD_MORE_MARGIN < app.tracks.len() {
        return no_effects();
    }
    let source = match &app.tracks_for {
        Some(source) => source.copy(),
        None => return no_effects(),
    };
    let uris = next_page(app);
    if uris.len() == 0 {
        return no_effects();
    }
    app.loading_more = true;
    one_effect(Effect::Api(LibraryRequest::MoreTracks { source, uris }))
}

/// Whether `update_action` cannot handle `action` in this state (see
/// `spec_action_fails`): callers test this before calling it.
pub fn action_fails(app: &App, action: Action) -> (fails: bool)
    ensures
        fails == spec_action_fails(*app, action),
{
    let count = app.pending_count;
    let (index, len) = match app.focus {
        Focus::Sidebar => (app.sidebar.index, app.playlists.len()),
        Focus::Main => (app.track_list.index, app.tracks.len()),
    };
    let mut moved = Selection { index };
    match action {
        Action::MoveDown => moved.move_by(len, row_delta(count)),
        Action::MoveUp => moved.move_by(len, -row_delta(count)),
        Action::GoTop => moved.move_by(len, isize::MIN),
        Action::GoBottom => match count {
            Some(row) => moved.select_row(len, row),
            None => moved.move_by(len, isize::MAX),
        },
        _ => return false,
    }
    if app.focus != Focus::Main || app.loading_more || !library_available(app) {
        return false;
    }
    match moved.index {
        Some(selected) => {
            if selected > usize::MAX - LOAD_MORE_MARGIN {
                true
            } else {
                selected + LOAD_MORE_MARGIN >= app.tracks.len() && app.tracks_for.is_some()
                    && app.tracks.len() > app.track_uris.len()
            }
        },
        None => false,
    }
}

/// Whether `update_message` cannot handle `message` in this state (see
/// `spec_message_fails`): callers test this before calling it.
pub fn message_fails(app: &App, message: &Message) -> (fails: bool)
    ensures
        fails == spec_message_fails(*app, *message),
{
    match message {
        Message::Player(PlayerUpdate::Disconnected) => app.library_generation == u64::MAX,
        _ => false,
    }
}

/// Handles an input.
pub fn update(app: &mut App, input: Input) -> (effects: Vec<Effect>)
    requires
        !spec_input_fails(*old(app), input),
    ensures
        spec_update(*old(app), input, *final(app), effects@),
{
    match input {
        Input::Action(action) => update_action(app, action),
        Input::Message(message) => update_message(app, message),
    }
}

/// Handles an action of the user.
pub fn update_action(app: &mut App, action: Action) -> (effects: Vec<Effect>)
    requires
        !spec_action_fails(*old(app), action),
    ensures
        spec_update_action(*old(app), action, *final(app), effects@),
{
    let count = match action {
        Action::Digit(digit) => {
            app.push_digit(digit);
            return no_effects();
        },
        _ => app.pending_count.take(),
    };
    match action {
        Action::MoveDown => {
            move_focused(app, row_delta(count));
            load_more_if_near_end(app)
        },
        Action::MoveUp => {
            move_focused(app, -row_delta(count));
            load_more_if_near_end(app)
        },
        Action::GoTop => {
            move_focused(app, isize::MIN);
            load_more_if_near_end(app)
        },
        Action::GoBottom => {
            match count {
                Some(row) => select_focused_row(app, row),
                None => move_focused(app, isize::MAX),
            }
            load_more_if_near_end(app)
        },
        Action::FocusSidebar => {
            app.focus = Focus::Sidebar;
            no_effects()
        },
        Action::FocusMain => {
            app.focus = Focus::Main;
            no_effects()
        },
        Action::Select => match app.focus {
            Focus::Sidebar => select_playlist(app),
            Focus::Main => play_selected(app),
        },
        Action::PlayPause => one_effect(Effect::Player(PlayerCommand::PlayPause)),
        Action::Next => one_effect(Effect::Player(PlayerCommand::Next)),
        Action::Prev => one_effect(Effect::Player(PlayerCommand::Prev)),
        Action::SeekForward => {
            let target = app.playback.current_position_ms().saturating_add(SEEK_STEP_MS);
            one_effect(Effect::Player(PlayerCommand::Seek(target)))
        },
        Action::SeekBackward => {
            let target = app.playback.current_position_ms().saturating_sub(SEEK_STEP_MS);
            one_effect(Effect::Player(PlayerCommand::Seek(target)))
        },
        Action::VolumeUp => {
            let target = app.playback.volume.saturating_add(VOLUME_STEP);
            one_effect(Effect::Player(PlayerCommand::SetVolume(target)))
        },
        Action::VolumeDown => {
            let target = app.playback.volume.saturating_sub(VOLUME_STEP);
            one_effect(Effect::Player(PlayerCommand::SetVolume(target)))
        },
        Action::Refresh => match app.connection {
            ConnectionStatus::Connected => one_effect(Effect::Api(LibraryRequest::Playlists)),
            ConnectionStatus::Reconnecting => no_effects(),
            ConnectionStatus::Lost => {
                app.connection = ConnectionStatus::Reconnecting;
                app.status = Some(Status::Info(String::from_str("reconnecting")));
                one_effect(Effect::Player(PlayerCommand::Reconnect))
            },
        },
        Action::Quit => one_effect(Effect::Quit),
        Action::Digit(_) => no_effects(),
    }
}

/// Handles a report: library answers, player updates and ticks.
pub fn update_message(app: &mut App, message: Message) -> (effects: Vec<Effect>)
    requires
        !spec_message_fails(*old(app), message),
    ensures
        spec_update_message(*old(app), message, *final(app), effects@),
{
    let generation: Option<u64> = match &message {
        Message::Playlists { generation, .. } => Some(*generation),
        Message::Tracks { generation, .. } => Some(*generation),
        Message::MoreTracks { generation, .. } => Some(*generation),
        _ => None,
    };
    match generation {
        Some(g) => if g != app.library_generation {
            return no_effects();
        },
        None => {},
    }
    match message {
        Message::Playlists { result, .. } => match result {
            Ok(playlists) => {
                app.playlists = playlists;
                app.sidebar.select(Some(0));
                if app.playlists.len() > 0 {
                    let source = app.playlists[0].source.copy();
                    request_tracks(app, source)
                } else {
                    no_effects()
                }
            },
            Err(error) => {
                report_error(app, error);
                no_effects()
            },
        },
        Message::Tracks { source, result, .. } => {
            if !app.is_showing(&source) {
                return no_effects();
            }
            match result {
                Ok(page) => {
                    app.tracks = page.tracks;
                    app.track_uris = page.uris;
                    app.track_list.select(Some(0));
                },
                Err(error) => report_error(app, error),
            }
            no_effects()
        },
        Message::MoreTracks { source, result, .. } => {
            if !app.is_showing(&source) {
                return no_effects();
            }
            app.loading_more = false;
            match result {
                Ok(tracks) => {
                    let mut tracks = tracks;
                    app.tracks.append(&mut tracks);
                },
                Err(error) => report_error(app, error),
            }
            no_effects()
        },
        Message::Player(update) => {
            match &update {
                PlayerUpdate::Disconnected => {
                    app.library_generation = app.library_generation + 1;
                    app.loading_more = false;
                    app.connection = ConnectionStatus::Reconnecting;
                    app.status = Some(Status::Error(String::from_str("connection dropped, reconnecting")));
                },
                PlayerUpdate::Reconnected => {
                    app.connection = ConnectionStatus::Connected;
                    app.status = Some(
                        Status::Error(String::from_str("reconnected, press enter on a track to play")),
                    );
                },
                PlayerUpdate::ConnectionLost(error) => {
                    app.connection = ConnectionStatus::Lost;
                    let text = match error {
                        Some(text) => text.clone(),
                        None => String::from_str("connection lost, press R to reconnect"),
                    };
                    app.status = Some(Status::Error(text));
                },
                _ => {},
            }
            app.playback.apply(update);
            no_effects()
        },
        Message::Tick => no_effects(),
    }
}

} // verus!
