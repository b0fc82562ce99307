use std::time::{Duration, Instant};

use lightify::app::Playback;
use lightify::player::PlayerUpdate;

#[test]
fn playing_starts_the_clock_at_the_report() {
    let now = Instant::now();
    let mut playback = Playback::default();
    playback.apply_at(PlayerUpdate::Playing { position_ms: 5_000 }, now);
    assert_eq!(playback.position_ms, 5_000);
    assert_eq!(playback.position_at, Some(now));
}

#[test]
fn a_seek_while_paused_keeps_the_clock_stopped() {
    let now = Instant::now();
    let mut playback = Playback::default();
    playback.apply_at(PlayerUpdate::Paused { position_ms: 1_000 }, now);
    playback.apply_at(PlayerUpdate::Seeked { position_ms: 30_000 }, now);
    assert_eq!(playback.position_ms, 30_000);
    assert_eq!(playback.position_at, None);
    assert_eq!(playback.current_position_ms(), 30_000);
}

#[test]
fn a_seek_while_playing_restarts_the_clock() {
    let start = Instant::now();
    let later = start + Duration::from_secs(3);
    let mut playback = Playback::default();
    playback.apply_at(PlayerUpdate::Playing { position_ms: 0 }, start);
    playback.apply_at(PlayerUpdate::Seeked { position_ms: 60_000 }, later);
    assert_eq!(playback.position_ms, 60_000);
    assert_eq!(playback.position_at, Some(later));
}

#[test]
fn stopping_forgets_the_track_and_position() {
    let now = Instant::now();
    let mut playback = Playback::default();
    playback.apply_at(
        PlayerUpdate::TrackChanged {
            name: "Song".to_string(),
            artists: vec!["A".to_string()],
            album: "Album".to_string(),
            duration_ms: 1_000,
            uri: "spotify:track:abc".to_string(),
        },
        now,
    );
    playback.apply_at(PlayerUpdate::Playing { position_ms: 500 }, now);
    playback.apply_at(PlayerUpdate::Volume(7), now);
    playback.apply_at(PlayerUpdate::Stopped, now);
    assert_eq!(playback.track, None);
    assert_eq!(playback.position_ms, 0);
    assert_eq!(playback.position_at, None);
    assert_eq!(playback.volume, 7);
}

#[test]
fn a_paused_position_does_not_move() {
    let mut playback = Playback::default();
    playback.apply(PlayerUpdate::Paused { position_ms: 42 });
    assert_eq!(playback.current_position_ms(), 42);
    assert_eq!(playback.current_position_ms(), 42);
}
