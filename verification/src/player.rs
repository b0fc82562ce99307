//! What is sent to the player, what it reports back, and the decisions of the
//! task that keeps the player connected.
use vstd::prelude::*;

use crate::reconnect::{spec_delay_ms, spec_kept, Reconnector, MAX_ATTEMPTS};

verus! {

/// A request for the player.
#[derive(Debug, Clone, PartialEq, Eq)]
pub enum PlayerCommand {
    Load { uris: Vec<String>, start_index: usize },
    PlayPause,
    Next,
    Prev,
    Seek(u32),
    SetVolume(u16),
    Reconnect,
}

/// A change reported by the player.
#[derive(Debug, Clone, PartialEq, Eq)]
pub enum PlayerUpdate {
    TrackChanged { name: String, artists: Vec<String>, album: String, duration_ms: u32, uri: String },
    Playing { position_ms: u32 },
    Paused { position_ms: u32 },
    Seeked { position_ms: u32 },
    Volume(u16),
    Stopped,
    Disconnected,
    Reconnected,
    ConnectionLost(Option<String>),
}

/// The volume the player starts with: 69% of the full scale of 65535.
pub const DEFAULT_VOLUME: u16 = 45_219;

/// An event of the audio player, as far as the application reads it.
#[derive(Debug, Clone, PartialEq, Eq)]
pub enum PlayerEventData {
    VolumeChanged { volume: u16 },
    Playing { position_ms: u32 },
    Paused { position_ms: u32 },
    Seeked { position_ms: u32 },
    PositionCorrection { position_ms: u32 },
    Stopped,
    EndOfTrack,
    /// A new item; `track` holds its artists' names and album when the item is a track.
    TrackChanged { name: String, duration_ms: u32, uri: String, track: Option<(Vec<String>, String)> },
    /// Any event the application does not show.
    Other,
}

/// The update that the application is told of for a player event: seeks
/// and position corrections both move the position, the end of a track
/// stops playback, and an item that is no track has no artists or album.
pub open spec fn spec_translate(event: PlayerEventData) -> Option<PlayerUpdate> {
    match event {
        PlayerEventData::VolumeChanged { volume } => Some(PlayerUpdate::Volume(volume)),
        PlayerEventData::Playing { position_ms } => Some(PlayerUpdate::Playing { position_ms }),
        PlayerEventData::Paused { position_ms } => Some(PlayerUpdate::Paused { position_ms }),
        PlayerEventData::Seeked { position_ms } => Some(PlayerUpdate::Seeked { position_ms }),
        PlayerEventData::PositionCorrection { position_ms } => Some(PlayerUpdate::Seeked { position_ms }),
        PlayerEventData::Stopped => Some(PlayerUpdate::Stopped),
        PlayerEventData::EndOfTrack => Some(PlayerUpdate::Stopped),
        PlayerEventData::TrackChanged { name, duration_ms, uri, track } => match track {
            Some((artists, album)) => Some(PlayerUpdate::TrackChanged { name, artists, album, duration_ms, uri }),
            None => None,
        },
        PlayerEventData::Other => None,
    }
}

/// Whether `update` is the change reported for a track change of an item
/// that is no track: no artists, an empty album.
pub open spec fn spec_untracked_change(event: PlayerEventData, update: Option<PlayerUpdate>) -> bool {
    match event {
        PlayerEventData::TrackChanged { name, duration_ms, uri, track: None } => match update {
            Some(PlayerUpdate::TrackChanged { name: n, artists, album, duration_ms: d, uri: u }) => {
                &&& n == name
                &&& artists@.len() == 0
                &&& album@.len() == 0
                &&& d == duration_ms
                &&& u == uri
            },
            _ => false,
        },
        _ => false,
    }
}

/// The update that the application is told of for a player event, if any.
pub fn translate(event: PlayerEventData) -> (update: Option<PlayerUpdate>)
    ensures
        match event {
            PlayerEventData::TrackChanged { track: None, .. } => spec_untracked_change(event, update),
            _ => update == spec_translate(event),
        },
{
    match event {
        PlayerEventData::VolumeChanged { volume } => Some(PlayerUpdate::Volume(volume)),
        PlayerEventData::Playing { position_ms } => Some(PlayerUpdate::Playing { position_ms }),
        PlayerEventData::Paused { position_ms } => Some(PlayerUpdate::Paused { position_ms }),
        PlayerEventData::Seeked { position_ms } | PlayerEventData::PositionCorrection { position_ms } => Some(
            PlayerUpdate::Seeked { position_ms },
        ),
        PlayerEventData::Stopped | PlayerEventData::EndOfTrack => Some(PlayerUpdate::Stopped),
        PlayerEventData::TrackChanged { name, duration_ms, uri, track } => {
            let (artists, album) = match track {
                Some((artists, album)) => (artists, album),
                None => (Vec::new(), String::new()),
            };
            Some(PlayerUpdate::TrackChanged { name, artists, album, duration_ms, uri })
        },
        PlayerEventData::Other => None,
    }
}

/// Why the player could not be started or connected. Errors of the player
/// library are carried as their text.
#[derive(Debug, Clone, PartialEq, Eq)]
pub enum PlayerError {
    NoBackend,
    NoMixer,
    Mixer(String),
    Spirc(String),
    NoCredentials,
    Timeout,
}

/// The message of an error.
pub open spec fn spec_error_text(error: PlayerError) -> Seq<char> {
    match error {
        PlayerError::NoBackend => "no audio backend available"@,
        PlayerError::NoMixer => "no mixer available"@,
        PlayerError::Mixer(cause) => "could not create mixer: "@ + cause@,
        PlayerError::Spirc(cause) => "could not start spotify connect device: "@ + cause@,
        PlayerError::NoCredentials => "no cached credentials; restart lightify to log in again"@,
        PlayerError::Timeout => "connection attempt timed out"@,
    }
}

impl PlayerError {
    /// The message of this error.
    pub fn message(&self) -> (text: String)
        ensures
            text@ == spec_error_text(*self),
    {
        match self {
            PlayerError::NoBackend => String::from_str("no audio backend available"),
            PlayerError::NoMixer => String::from_str("no mixer available"),
            PlayerError::Mixer(cause) => String::from_str("could not create mixer: ").concat(cause.as_str()),
            PlayerError::Spirc(cause) => String::from_str("could not start spotify connect device: ").concat(
                cause.as_str(),
            ),
            PlayerError::NoCredentials => String::from_str(
                "no cached credentials; restart lightify to log in again",
            ),
            PlayerError::Timeout => String::from_str("connection attempt timed out"),
        }
    }
}

// ---------------------------------------------------------------------------
// Keeping the player connected
// ---------------------------------------------------------------------------

/// The state of the link to Spotify, as far as the decisions read it.
#[derive(Debug, Clone, Copy, PartialEq, Eq, Structural)]
pub enum Link {
    /// Connected.
    Up,
    /// The connection dropped; the old device is still cleaning up.
    Draining,
    /// Waiting `delay_ms` before the next automatic attempt.
    Waiting { delay_ms: u64 },
    /// An attempt runs; `manual` when the user asked for it.
    Connecting { manual: bool },
    /// No attempt will be made until the user asks for one.
    Down,
}

/// What happened to the link.
#[derive(Debug, PartialEq, Eq)]
pub enum LinkEvent {
    /// The connection died; `task_finished` when the device already stopped.
    ConnectionDead { task_finished: bool },
    /// The old device finished cleaning up, or ran out of time (`in_time` false).
    Drained { in_time: bool },
    /// The wait before the next attempt is over.
    RetryDue,
    /// An attempt ended.
    AttemptFinished { result: Result<(), PlayerError>, manual: bool },
}

/// What the task does with a command.
#[derive(Debug, Clone, PartialEq, Eq)]
pub enum Route {
    /// Hand it to the connected device.
    Forward(PlayerCommand),
    /// Not connected: the command is dropped.
    Dropped(PlayerCommand),
    /// Start a manual attempt.
    StartAttempt,
    /// A reconnect asked for while connected or busy: nothing to do.
    Ignored,
}

/// What the task does in reply to an event, besides moving to the new link.
#[derive(Debug)]
pub struct Reaction {
    /// Stop the audio player.
    pub stop_player: bool,
    /// Updates to report to the application, in order.
    pub updates: Vec<PlayerUpdate>,
}

/// The decisions of the task that keeps the player connected.
#[derive(Debug)]
pub struct Supervisor {
    pub link: Link,
    pub reconnector: Reconnector,
}

/// The next automatic step from the recent attempts `attempts` at `now`: wait
/// before one more attempt, or give up when the budget is spent.
pub open spec fn spec_retry_link(attempts: Seq<u64>, now: u64) -> Link {
    let kept = spec_kept(attempts, now);
    if kept.len() < MAX_ATTEMPTS {
        Link::Waiting { delay_ms: spec_delay_ms(kept.len()) }
    } else {
        Link::Down
    }
}

/// The attempts remembered after that step.
pub open spec fn spec_retry_attempts(attempts: Seq<u64>, now: u64) -> Seq<u64> {
    let kept = spec_kept(attempts, now);
    if kept.len() < MAX_ATTEMPTS {
        kept.push(now)
    } else {
        kept
    }
}

/// The updates reported by that step: the loss of the connection when giving up.
pub open spec fn spec_retry_updates(attempts: Seq<u64>, now: u64) -> Seq<PlayerUpdate> {
    if spec_kept(attempts, now).len() < MAX_ATTEMPTS {
        Seq::empty()
    } else {
        seq![PlayerUpdate::ConnectionLost(None)]
    }
}

/// How `event` at `now` moves the supervisor from `before` to `after`, with
/// the reaction `stop` and `updates`.
pub open spec fn spec_handles_event(
    before: Supervisor,
    event: LinkEvent,
    now: u64,
    after: Supervisor,
    stop: bool,
    updates: Seq<PlayerUpdate>,
) -> bool {
    let retry_link = spec_retry_link(before.reconnector@, now);
    let retry_attempts = spec_retry_attempts(before.reconnector@, now);
    let retry_updates = spec_retry_updates(before.reconnector@, now);
    match event {
        LinkEvent::ConnectionDead { task_finished } => {
            &&& stop
            &&& if before.link == Link::Up && !task_finished {
                &&& after.link == Link::Draining
                &&& after.reconnector@ == before.reconnector@
                &&& updates == seq![PlayerUpdate::Disconnected]
            } else {
                &&& after.link == retry_link
                &&& after.reconnector@ == retry_attempts
                &&& updates == seq![PlayerUpdate::Disconnected] + retry_updates
            }
        },
        LinkEvent::Drained { .. } => {
            &&& !stop
            &&& after.link == retry_link
            &&& after.reconnector@ == retry_attempts
            &&& updates == retry_updates
        },
        LinkEvent::RetryDue => {
            &&& !stop
            &&& after.link == (Link::Connecting { manual: false })
            &&& after.reconnector@ == before.reconnector@
            &&& updates.len() == 0
        },
        LinkEvent::AttemptFinished { result: Ok(()), .. } => {
            &&& !stop
            &&& after.link == Link::Up
            &&& after.reconnector@ == Seq::<u64>::empty()
            &&& updates == seq![PlayerUpdate::Reconnected]
        },
        LinkEvent::AttemptFinished { result: Err(error), manual } => {
            &&& !stop
            &&& if manual || error == PlayerError::NoCredentials {
                &&& after.link == Link::Down
                &&& after.reconnector@ == before.reconnector@
                &&& updates.len() == 1
                &&& updates[0] matches PlayerUpdate::ConnectionLost(Some(text))
                &&& text@ == spec_error_text(error)
            } else {
                &&& after.link == retry_link
                &&& after.reconnector@ == retry_attempts
                &&& updates == retry_updates
            }
        },
    }
}

/// How a command moves the supervisor, and where the command goes.
pub open spec fn spec_routes(before: Link, command: PlayerCommand, after: Link, route: Route) -> bool {
    match command {
        PlayerCommand::Reconnect => match before {
            Link::Waiting { .. } | Link::Down => after == (Link::Connecting { manual: true }) && route
                == Route::StartAttempt,
            _ => after == before && route == Route::Ignored,
        },
        _ => after == before && route == (if before == Link::Up {
            Route::Forward(command)
        } else {
            Route::Dropped(command)
        }),
    }
}

impl Supervisor {
    /// A supervisor of a connected player with the whole reconnect budget.
    pub fn new() -> (supervisor: Supervisor)
        ensures
            supervisor.link == Link::Up,
            supervisor.reconnector@ == Seq::<u64>::empty(),
    {
        Supervisor { link: Link::Up, reconnector: Reconnector::default() }
    }

    /// Schedules the next automatic attempt, or gives up when the budget is spent.
    fn schedule_retry(&mut self, now: u64, updates: &mut Vec<PlayerUpdate>)
        ensures
            final(self).link == spec_retry_link(old(self).reconnector@, now),
            final(self).reconnector@ == spec_retry_attempts(old(self).reconnector@, now),
            final(updates)@ == old(updates)@ + spec_retry_updates(old(self).reconnector@, now),
    {
        match self.reconnector.next_delay(now) {
            Some(delay_ms) => {
                self.link = Link::Waiting { delay_ms };
            },
            None => {
                self.give_up(None, updates);
            },
        }
    }

    /// Stops trying, and reports that the connection is lost.
    fn give_up(&mut self, error: Option<String>, updates: &mut Vec<PlayerUpdate>)
        ensures
            final(self).link == Link::Down,
            final(self).reconnector == old(self).reconnector,
            final(updates)@ == old(updates)@.push(PlayerUpdate::ConnectionLost(error)),
    {
        updates.push(PlayerUpdate::ConnectionLost(error));
        self.link = Link::Down;
    }

    /// Decides what to do about an event of the link, at `now` milliseconds.
    pub fn handle_connection_event(&mut self, event: LinkEvent, now: u64) -> (reaction: Reaction)
        ensures
            spec_handles_event(*old(self), event, now, *final(self), reaction.stop_player, reaction.updates@),
    {
        let mut updates: Vec<PlayerUpdate> = Vec::new();
        match event {
            LinkEvent::ConnectionDead { task_finished } => {
                updates.push(PlayerUpdate::Disconnected);
                if self.link == Link::Up && !task_finished {
                    self.link = Link::Draining;
                } else {
                    self.schedule_retry(now, &mut updates);
                }
                Reaction { stop_player: true, updates }
            },
            LinkEvent::Drained { .. } => {
                self.schedule_retry(now, &mut updates);
                Reaction { stop_player: false, updates }
            },
            LinkEvent::RetryDue => {
                self.link = Link::Connecting { manual: false };
                Reaction { stop_player: false, updates }
            },
            LinkEvent::AttemptFinished { result: Ok(()), .. } => {
                self.reconnector.reset();
                self.link = Link::Up;
                updates.push(PlayerUpdate::Reconnected);
                Reaction { stop_player: false, updates }
            },
            LinkEvent::AttemptFinished { result: Err(error), manual } => {
                let hopeless = match error {
                    PlayerError::NoCredentials => true,
                    _ => false,
                };
                if manual || hopeless {
                    let text = error.message();
                    self.give_up(Some(text), &mut updates);
                } else {
                    self.schedule_retry(now, &mut updates);
                }
                Reaction { stop_player: false, updates }
            },
        }
    }

    /// Decides where a command goes.
    pub fn handle_command(&mut self, command: PlayerCommand) -> (route: Route)
        ensures
            spec_routes(old(self).link, command, final(self).link, route),
            final(self).reconnector == old(self).reconnector,
    {
        match command {
            PlayerCommand::Reconnect => match self.link {
                Link::Waiting { .. } | Link::Down => {
                    self.link = Link::Connecting { manual: true };
                    Route::StartAttempt
                },
                _ => Route::Ignored,
            },
            command => if self.link == Link::Up {
                Route::Forward(command)
            } else {
                Route::Dropped(command)
            },
        }
    }
}

} // verus!
