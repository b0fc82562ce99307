//! What the player's reports do to the playback, how the shown position
//! advances, and which player events the application hears of.
use std::time::Instant;

use vstd::prelude::*;

use crate::app::{spec_applied_at, spec_position_after, NowPlaying, Playback};
use crate::player::{spec_translate, spec_untracked_change, PlayerEventData, PlayerUpdate};

verus! {

/// Each report of the player sets what it reports and keeps the rest:
/// playing starts the clock at the report, pausing stops it, a seek moves
/// the position and restarts a running clock at the report, a stop or a
/// dropped connection forgets the track and the position, and the
/// connection's return or loss changes nothing.
pub proof fn lemma_reports_set_the_playback(before: Playback, update: PlayerUpdate, now: Instant, after: Playback)
    requires
        spec_applied_at(before, after, update, now),
    ensures
        match update {
            PlayerUpdate::TrackChanged { name, artists, album, duration_ms, uri } => {
                &&& after.track == Some(NowPlaying { name, artists, album, duration_ms, uri })
                &&& after.position_ms == before.position_ms
                &&& after.position_at == before.position_at
                &&& after.volume == before.volume
            },
            PlayerUpdate::Playing { position_ms } => {
                &&& after.position_ms == position_ms
                &&& after.position_at == Some(now)
                &&& after.track == before.track
                &&& after.volume == before.volume
            },
            PlayerUpdate::Paused { position_ms } => {
                &&& after.position_ms == position_ms
                &&& after.position_at is None
                &&& after.track == before.track
                &&& after.volume == before.volume
            },
            PlayerUpdate::Seeked { position_ms } => {
                &&& after.position_ms == position_ms
                &&& before.position_at is Some ==> after.position_at == Some(now)
                &&& before.position_at is None ==> after.position_at is None
                &&& after.track == before.track
                &&& after.volume == before.volume
            },
            PlayerUpdate::Volume(volume) => {
                &&& after.volume == volume
                &&& after.position_ms == before.position_ms
                &&& after.position_at == before.position_at
                &&& after.track == before.track
            },
            PlayerUpdate::Stopped | PlayerUpdate::Disconnected => {
                &&& after.track is None
                &&& after.position_ms == 0
                &&& after.position_at is None
                &&& after.volume == before.volume
            },
            PlayerUpdate::Reconnected | PlayerUpdate::ConnectionLost(_) => after == before,
        },
{
}

/// While playing, the position shown a while after a report is the
/// reported one plus the time that passed, stopping at `u32::MAX`, so it
/// never goes back as time passes; while paused it is the reported one.
pub proof fn lemma_playing_advances_the_position(playback: Playback, elapsed_ms: u128, later_ms: u128)
    requires
        elapsed_ms <= later_ms,
    ensures
        playback.position_at is None ==> spec_position_after(playback, elapsed_ms) == playback.position_ms,
        playback.position_at is Some && playback.position_ms + elapsed_ms <= u32::MAX ==> spec_position_after(
            playback,
            elapsed_ms,
        ) == playback.position_ms + elapsed_ms,
        playback.position_at is Some && playback.position_ms + elapsed_ms > u32::MAX ==> spec_position_after(
            playback,
            elapsed_ms,
        ) == u32::MAX,
        spec_position_after(playback, elapsed_ms) <= spec_position_after(playback, later_ms),
{
}

/// Which player events the application hears of: volume, play, pause and
/// seek reports pass through, a position correction is a seek, the end of
/// a track is a stop, a new track brings its artists and album, and any
/// other event is not reported.
pub proof fn lemma_player_events(event: PlayerEventData)
    ensures
        match event {
            PlayerEventData::VolumeChanged { volume } => spec_translate(event) == Some(PlayerUpdate::Volume(volume)),
            PlayerEventData::Playing { position_ms } => spec_translate(event) == Some(
                PlayerUpdate::Playing { position_ms },
            ),
            PlayerEventData::Paused { position_ms } => spec_translate(event) == Some(PlayerUpdate::Paused { position_ms }),
            PlayerEventData::Seeked { position_ms } => spec_translate(event) == Some(PlayerUpdate::Seeked { position_ms }),
            PlayerEventData::PositionCorrection { position_ms } => spec_translate(event) == Some(
                PlayerUpdate::Seeked { position_ms },
            ),
            PlayerEventData::Stopped => spec_translate(event) == Some(PlayerUpdate::Stopped),
            PlayerEventData::EndOfTrack => spec_translate(event) == Some(PlayerUpdate::Stopped),
            PlayerEventData::TrackChanged { name, duration_ms, uri, track: Some((artists, album)) } => spec_translate(
                event,
            ) == Some(PlayerUpdate::TrackChanged { name, artists, album, duration_ms, uri }),
            PlayerEventData::TrackChanged { name, duration_ms, uri, track: None } => forall|update: Option<PlayerUpdate>|
                #[trigger] spec_untracked_change(event, update) ==> {
                    &&& update matches Some(PlayerUpdate::TrackChanged { name: n, artists, album, duration_ms: d, uri: u })
                    &&& n == name && d == duration_ms && u == uri
                    &&& artists@.len() == 0 && album@.len() == 0
                },
            PlayerEventData::Other => spec_translate(event) is None,
        },
{
}

} // verus!
