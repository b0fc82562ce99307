use lightify::action::Action;
use lightify::app::{update, App, Effect, Focus, Input, LibraryRequest};
use lightify::message::Message;
use lightify::model::{LibraryItem, Source, Track, TracksPage};
use lightify::player::{PlayerCommand, PlayerUpdate};

fn playlist(id: &str, name: &str) -> LibraryItem {
    LibraryItem {
        source: Source::Playlist(id.to_string()),
        name: name.to_string(),
        track_count: 0,
    }
}

fn app_with_playlists(n: usize) -> App {
    let mut app = App::new();
    let lists = (0..n)
        .map(|i| playlist(&format!("p{i}"), &format!("Playlist {i}")))
        .collect();
    update(
        &mut app,
        Input::Message(Message::Playlists {
            generation: 0,
            result: Ok(lists),
        }),
    );
    app
}

fn page(tracks: Vec<Track>, total: usize) -> TracksPage {
    let uris = (0..total).map(|i| format!("spotify:track:t{i}")).collect();
    TracksPage { uris, tracks }
}

fn track(name: &str) -> Track {
    Track {
        uri: format!("spotify:track:{name}"),
        name: name.to_string(),
        duration_ms: 0,
        artists: Vec::new(),
        album: String::new(),
    }
}

fn tracks_message(id: &str, page: TracksPage) -> Input {
    Input::Message(Message::Tracks {
        generation: 0,
        source: Source::Playlist(id.into()),
        result: Ok(page),
    })
}

fn app_with_tracks(n: usize) -> App {
    let mut app = app_with_playlists(1);
    update(&mut app, Input::Action(Action::Select));
    let tracks = (0..n).map(|i| track(&format!("t{i}"))).collect();
    update(&mut app, tracks_message("p0", page(tracks, n)));
    app
}

#[test]
fn app_nearing_the_end_of_tracks_requests_the_next_page_once() {
    let mut app = app_with_playlists(1);
    update(&mut app, Input::Action(Action::Select));
    let tracks = (0..50).map(|i| track(&format!("t{i}"))).collect();
    update(&mut app, tracks_message("p0", page(tracks, 51)));

    assert_eq!(update(&mut app, Input::Action(Action::MoveDown)), vec![]);

    assert_eq!(
        update(&mut app, Input::Action(Action::GoBottom)),
        vec![Effect::Api(LibraryRequest::MoreTracks {
            source: Source::Playlist("p0".into()),
            uris: vec!["spotify:track:t50".into()],
        })]
    );

    assert_eq!(update(&mut app, Input::Action(Action::MoveUp)), vec![]);

    update(
        &mut app,
        Input::Message(Message::MoreTracks {
            generation: 0,
            source: Source::Playlist("p0".into()),
            result: Ok(vec![track("t50")]),
        }),
    );
    assert_eq!(app.tracks.len(), 51);
    assert_eq!(update(&mut app, Input::Action(Action::GoBottom)), vec![]);
}

#[test]
fn refresh_requests_playlists() {
    let mut app = App::new();
    let effects = update(&mut app, Input::Action(Action::Refresh));
    assert_eq!(effects, vec![Effect::Api(LibraryRequest::Playlists)]);
}

#[test]
fn quit_produces_quit_effect() {
    let mut app = App::new();
    assert_eq!(
        update(&mut app, Input::Action(Action::Quit)),
        vec![Effect::Quit]
    );
}

#[test]
fn playlists_loaded_selects_first_and_requests_its_tracks() {
    let mut app = App::new();
    let lists = vec![playlist("p0", "First"), playlist("p1", "Second")];
    let effects = update(
        &mut app,
        Input::Message(Message::Playlists {
            generation: 0,
            result: Ok(lists),
        }),
    );
    assert_eq!(app.playlists.len(), 2);
    assert_eq!(app.sidebar.selected(), Some(0));
    assert_eq!(
        effects,
        vec![Effect::Api(LibraryRequest::PlaylistTracks {
            source: Source::Playlist("p0".into())
        })]
    );
}

#[test]
fn app_move_down_in_sidebar_stops_at_last_item() {
    let mut app = app_with_playlists(2);
    update(&mut app, Input::Action(Action::MoveDown));
    assert_eq!(app.sidebar.selected(), Some(1));
    update(&mut app, Input::Action(Action::MoveDown));
    assert_eq!(app.sidebar.selected(), Some(1));
}

#[test]
fn move_up_in_sidebar_stops_at_first_item() {
    let mut app = app_with_playlists(2);
    update(&mut app, Input::Action(Action::MoveUp));
    assert_eq!(app.sidebar.selected(), Some(0));
}

#[test]
fn go_top_and_go_bottom() {
    let mut app = app_with_playlists(5);
    update(&mut app, Input::Action(Action::GoBottom));
    assert_eq!(app.sidebar.selected(), Some(4));
    update(&mut app, Input::Action(Action::GoTop));
    assert_eq!(app.sidebar.selected(), Some(0));
}

#[test]
fn app_motions_on_empty_list_do_nothing() {
    let mut app = App::new();
    update(&mut app, Input::Action(Action::MoveDown));
    update(&mut app, Input::Action(Action::GoBottom));
    assert_eq!(app.sidebar.selected(), Some(0));
}

#[test]
fn select_in_sidebar_requests_that_playlists_tracks_and_focuses_main() {
    let mut app = app_with_playlists(3);
    update(&mut app, Input::Action(Action::MoveDown));
    let effects = update(&mut app, Input::Action(Action::Select));
    assert_eq!(
        effects,
        vec![Effect::Api(LibraryRequest::PlaylistTracks {
            source: Source::Playlist("p1".into())
        })]
    );
    assert_eq!(app.focus, Focus::Main);
    assert_eq!(app.tracks_for, Some(Source::Playlist("p1".into())));
}

#[test]
fn tracks_loaded_replace_the_list_and_keep_all_uris() {
    let mut app = app_with_playlists(1);
    update(&mut app, Input::Action(Action::Select));
    update(&mut app, tracks_message("p0", page(vec![], 3)));
    assert_eq!(app.track_uris.len(), 3);
    assert_eq!(app.track_list.selected(), Some(0));
}

#[test]
fn app_tracks_loaded_for_a_stale_playlist_are_ignored() {
    let mut app = app_with_playlists(2);
    update(&mut app, Input::Action(Action::Select));
    update(&mut app, Input::Action(Action::FocusSidebar));
    update(&mut app, Input::Action(Action::MoveDown));
    update(&mut app, Input::Action(Action::Select));
    update(&mut app, tracks_message("p0", page(vec![], 3)));
    assert_eq!(app.tracks_for, Some(Source::Playlist("p1".into())));
    assert!(app.track_uris.is_empty());
}

#[test]
fn api_error_goes_to_status_line() {
    let mut app = App::new();
    update(
        &mut app,
        Input::Message(Message::Playlists {
            generation: 0,
            result: Err("request failed: boom".to_string()),
        }),
    );
    assert!(app.status_text().unwrap_or("").contains("boom"));
}

#[test]
fn focus_switching() {
    let mut app = App::new();
    update(&mut app, Input::Action(Action::FocusMain));
    assert_eq!(app.focus, Focus::Main);
    update(&mut app, Input::Action(Action::FocusSidebar));
    assert_eq!(app.focus, Focus::Sidebar);
}

#[test]
fn select_track_loads_whole_list_from_that_index() {
    let mut app = app_with_tracks(3);
    update(&mut app, Input::Action(Action::MoveDown));
    let effects = update(&mut app, Input::Action(Action::Select));
    assert_eq!(
        effects,
        vec![Effect::Player(PlayerCommand::Load {
            uris: vec![
                "spotify:track:t0".into(),
                "spotify:track:t1".into(),
                "spotify:track:t2".into(),
            ],
            start_index: 1,
        })]
    );
}

#[test]
fn play_pause_is_forwarded() {
    let mut app = App::new();
    let effects = update(&mut app, Input::Action(Action::PlayPause));
    assert_eq!(effects, vec![Effect::Player(PlayerCommand::PlayPause)]);
}

#[test]
fn seek_forward_uses_current_position() {
    let mut app = App::new();
    update(
        &mut app,
        Input::Message(Message::Player(PlayerUpdate::TrackChanged {
            name: "t".into(),
            artists: vec![],
            album: "".into(),
            duration_ms: 100_000,
            uri: "spotify:track:t".into(),
        })),
    );
    update(
        &mut app,
        Input::Message(Message::Player(PlayerUpdate::Paused {
            position_ms: 30_000,
        })),
    );
    let effects = update(&mut app, Input::Action(Action::SeekForward));
    assert_eq!(effects, vec![Effect::Player(PlayerCommand::Seek(40_000))]);
}

#[test]
fn playing_update_starts_the_clock() {
    let mut app = App::new();
    update(
        &mut app,
        Input::Message(Message::Player(PlayerUpdate::Playing {
            position_ms: 5_000,
        })),
    );
    assert!(app.playback.position_at.is_some());
    assert!(app.playback.current_position_ms() >= 5_000);
}

#[test]
fn paused_update_freezes_position() {
    let mut app = App::new();
    update(
        &mut app,
        Input::Message(Message::Player(PlayerUpdate::Paused { position_ms: 5_000 })),
    );
    assert_eq!(app.playback.position_at, None);
    assert_eq!(app.playback.current_position_ms(), 5_000);
}

#[test]
fn tick_produces_no_effects() {
    let mut app = App::new();
    assert!(update(&mut app, Input::Message(Message::Tick)).is_empty());
}

#[test]
fn the_selected_track_and_playlist_follow_the_cursors() {
    let mut app = app_with_tracks(3);
    assert_eq!(app.selected_playlist().map(|p| p.name.as_str()), Some("Playlist 0"));
    update(&mut app, Input::Action(Action::GoBottom));
    assert_eq!(app.selected_track().map(|t| t.name.as_str()), Some("t2"));
    assert!(app.is_showing(&Source::Playlist("p0".into())));
    assert_eq!(app.showing_playlist().map(|p| p.name.as_str()), Some("Playlist 0"));
    app.track_list.select(Some(7));
    assert_eq!(app.selected_track(), None);
}
