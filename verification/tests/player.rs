use lightify::player::{
    translate, Link, LinkEvent, PlayerCommand, PlayerError, PlayerEventData, PlayerUpdate, Route,
    Supervisor,
};
use lightify::reconnect::{MAX_ATTEMPTS, WINDOW_MS};

const NOW: u64 = 9_000_000;

#[test]
fn a_dead_connection_drains_before_retrying() {
    let mut supervisor = Supervisor::new();
    let reaction = supervisor.handle_connection_event(
        LinkEvent::ConnectionDead {
            task_finished: false,
        },
        NOW,
    );
    assert!(reaction.stop_player);
    assert_eq!(reaction.updates, vec![PlayerUpdate::Disconnected]);
    assert_eq!(supervisor.link, Link::Draining);

    let reaction = supervisor.handle_connection_event(LinkEvent::Drained { in_time: true }, NOW);
    assert!(!reaction.stop_player);
    assert!(reaction.updates.is_empty());
    assert_eq!(supervisor.link, Link::Waiting { delay_ms: 1_000 });

    supervisor.handle_connection_event(LinkEvent::RetryDue, NOW);
    assert_eq!(supervisor.link, Link::Connecting { manual: false });
}

#[test]
fn a_finished_device_skips_draining() {
    let mut supervisor = Supervisor::new();
    supervisor.handle_connection_event(
        LinkEvent::ConnectionDead {
            task_finished: true,
        },
        NOW,
    );
    assert_eq!(supervisor.link, Link::Waiting { delay_ms: 1_000 });
}

#[test]
fn automatic_retries_give_up_when_the_budget_is_spent() {
    let mut supervisor = Supervisor::new();
    let failed = || LinkEvent::AttemptFinished {
        result: Err(PlayerError::Timeout),
        manual: false,
    };
    let mut delays = Vec::new();
    supervisor.handle_connection_event(LinkEvent::ConnectionDead { task_finished: true }, NOW);
    delays.push(supervisor.link);
    for _ in 1..MAX_ATTEMPTS {
        supervisor.handle_connection_event(LinkEvent::RetryDue, NOW);
        supervisor.handle_connection_event(failed(), NOW);
        delays.push(supervisor.link);
    }
    assert_eq!(
        delays,
        [1_000, 5_000, 15_000, 30_000, 60_000].map(|delay_ms| Link::Waiting { delay_ms })
    );
    supervisor.handle_connection_event(LinkEvent::RetryDue, NOW);
    let reaction = supervisor.handle_connection_event(failed(), NOW);
    assert_eq!(supervisor.link, Link::Down);
    assert_eq!(reaction.updates, vec![PlayerUpdate::ConnectionLost(None)]);
}

#[test]
fn a_successful_attempt_reports_and_restores_the_budget() {
    let mut supervisor = Supervisor::new();
    supervisor.handle_connection_event(LinkEvent::ConnectionDead { task_finished: true }, NOW);
    supervisor.handle_connection_event(LinkEvent::RetryDue, NOW);
    let reaction = supervisor.handle_connection_event(
        LinkEvent::AttemptFinished {
            result: Ok(()),
            manual: false,
        },
        NOW,
    );
    assert_eq!(reaction.updates, vec![PlayerUpdate::Reconnected]);
    assert_eq!(supervisor.link, Link::Up);
    supervisor.handle_connection_event(LinkEvent::ConnectionDead { task_finished: true }, NOW);
    assert_eq!(supervisor.link, Link::Waiting { delay_ms: 1_000 });
}

#[test]
fn a_failed_manual_attempt_gives_up_with_its_error() {
    let mut supervisor = Supervisor::new();
    supervisor.link = Link::Down;
    assert_eq!(
        supervisor.handle_command(PlayerCommand::Reconnect),
        Route::StartAttempt
    );
    assert_eq!(supervisor.link, Link::Connecting { manual: true });
    let reaction = supervisor.handle_connection_event(
        LinkEvent::AttemptFinished {
            result: Err(PlayerError::Spirc("boom".into())),
            manual: true,
        },
        NOW,
    );
    assert_eq!(supervisor.link, Link::Down);
    assert_eq!(
        reaction.updates,
        vec![PlayerUpdate::ConnectionLost(Some(
            "could not start spotify connect device: boom".into()
        ))]
    );
}

#[test]
fn missing_credentials_are_hopeless() {
    let mut supervisor = Supervisor::new();
    supervisor.link = Link::Connecting { manual: false };
    let reaction = supervisor.handle_connection_event(
        LinkEvent::AttemptFinished {
            result: Err(PlayerError::NoCredentials),
            manual: false,
        },
        NOW,
    );
    assert_eq!(supervisor.link, Link::Down);
    assert_eq!(
        reaction.updates,
        vec![PlayerUpdate::ConnectionLost(Some(
            "no cached credentials; restart lightify to log in again".into()
        ))]
    );
}

#[test]
fn reconnect_requests_while_busy_are_ignored() {
    for link in [Link::Up, Link::Draining, Link::Connecting { manual: false }] {
        let mut supervisor = Supervisor::new();
        supervisor.link = link;
        assert_eq!(supervisor.handle_command(PlayerCommand::Reconnect), Route::Ignored);
        assert_eq!(supervisor.link, link);
    }
    let mut supervisor = Supervisor::new();
    supervisor.link = Link::Waiting { delay_ms: 60_000 };
    assert_eq!(
        supervisor.handle_command(PlayerCommand::Reconnect),
        Route::StartAttempt
    );
}

#[test]
fn commands_reach_the_device_only_while_connected() {
    let mut supervisor = Supervisor::new();
    assert_eq!(
        supervisor.handle_command(PlayerCommand::Seek(5)),
        Route::Forward(PlayerCommand::Seek(5))
    );
    supervisor.link = Link::Down;
    assert_eq!(
        supervisor.handle_command(PlayerCommand::PlayPause),
        Route::Dropped(PlayerCommand::PlayPause)
    );
}

#[test]
fn error_messages() {
    assert_eq!(PlayerError::NoBackend.message(), "no audio backend available");
    assert_eq!(PlayerError::NoMixer.message(), "no mixer available");
    assert_eq!(
        PlayerError::Mixer("x".into()).message(),
        "could not create mixer: x"
    );
    assert_eq!(PlayerError::Timeout.message(), "connection attempt timed out");
}

#[test]
fn attempts_leave_the_budget_after_the_window() {
    let mut supervisor = Supervisor::new();
    for _ in 0..MAX_ATTEMPTS {
        supervisor.handle_connection_event(LinkEvent::Drained { in_time: false }, NOW);
    }
    supervisor.handle_connection_event(LinkEvent::Drained { in_time: false }, NOW);
    assert_eq!(supervisor.link, Link::Down);
    supervisor.handle_connection_event(LinkEvent::Drained { in_time: false }, NOW + WINDOW_MS);
    assert_eq!(supervisor.link, Link::Waiting { delay_ms: 1_000 });
}

#[test]
fn position_corrections_are_reported_as_seeks() {
    assert_eq!(
        translate(PlayerEventData::PositionCorrection { position_ms: 4_200 }),
        Some(PlayerUpdate::Seeked { position_ms: 4_200 })
    );
    assert_eq!(
        translate(PlayerEventData::Seeked { position_ms: 7 }),
        Some(PlayerUpdate::Seeked { position_ms: 7 })
    );
}

#[test]
fn the_end_of_a_track_stops_playback() {
    assert_eq!(translate(PlayerEventData::EndOfTrack), Some(PlayerUpdate::Stopped));
    assert_eq!(translate(PlayerEventData::Stopped), Some(PlayerUpdate::Stopped));
}

#[test]
fn plain_player_events_pass_through() {
    assert_eq!(
        translate(PlayerEventData::VolumeChanged { volume: 300 }),
        Some(PlayerUpdate::Volume(300))
    );
    assert_eq!(
        translate(PlayerEventData::Playing { position_ms: 11 }),
        Some(PlayerUpdate::Playing { position_ms: 11 })
    );
    assert_eq!(
        translate(PlayerEventData::Paused { position_ms: 12 }),
        Some(PlayerUpdate::Paused { position_ms: 12 })
    );
    assert_eq!(translate(PlayerEventData::Other), None);
}

#[test]
fn a_track_change_carries_artists_and_album() {
    let update = translate(PlayerEventData::TrackChanged {
        name: "Song".to_string(),
        duration_ms: 180_000,
        uri: "spotify:track:abc".to_string(),
        track: Some((vec!["A".to_string(), "B".to_string()], "Album".to_string())),
    });
    assert_eq!(
        update,
        Some(PlayerUpdate::TrackChanged {
            name: "Song".to_string(),
            artists: vec!["A".to_string(), "B".to_string()],
            album: "Album".to_string(),
            duration_ms: 180_000,
            uri: "spotify:track:abc".to_string(),
        })
    );
}

#[test]
fn an_item_that_is_no_track_has_no_artists_or_album() {
    let update = translate(PlayerEventData::TrackChanged {
        name: "Episode".to_string(),
        duration_ms: 60_000,
        uri: "spotify:episode:xyz".to_string(),
        track: None,
    });
    assert_eq!(
        update,
        Some(PlayerUpdate::TrackChanged {
            name: "Episode".to_string(),
            artists: Vec::new(),
            album: String::new(),
            duration_ms: 60_000,
            uri: "spotify:episode:xyz".to_string(),
        })
    );
}
