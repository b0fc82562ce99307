use lightify::app::{App, Focus};
use lightify::model::{LibraryItem, Source, Track};
use lightify::ui::{fmt_time, track_number, track_numbers, tracks_title, volume_percent};

#[test]
fn fmt_time_pads_seconds() {
    assert_eq!(fmt_time(0), "0:00");
    assert_eq!(fmt_time(65_000), "1:05");
    assert_eq!(fmt_time(3_600_000), "60:00");
}

#[test]
fn fmt_time_drops_the_milliseconds_and_keeps_two_second_digits() {
    assert_eq!(fmt_time(59_999), "0:59");
    assert_eq!(fmt_time(610_000), "10:10");
    assert_eq!(fmt_time(u32::MAX), "71582:47");
}

fn track(uri: &str) -> Track {
    Track {
        uri: uri.to_string(),
        name: uri.to_string(),
        duration_ms: 1000,
        artists: vec![],
        album: String::new(),
    }
}

/// The number column for five tracks with the third one selected.
fn numbers(focus: Focus) -> Vec<String> {
    let mut app = App::new();
    app.focus = focus;
    app.tracks = (0..5).map(|i| track(&i.to_string())).collect();
    app.track_list.select(Some(2));
    track_numbers(&app).into_iter().map(|n| n.text).collect()
}

#[test]
fn tests_number_column_is_relative_to_the_selection() {
    assert_eq!(numbers(Focus::Main), ["2", "1", "3", "1", "2"]);
}

#[test]
fn tests_number_column_is_absolute_when_the_pane_is_not_focused() {
    assert_eq!(numbers(Focus::Sidebar), ["1", "2", "3", "4", "5"]);
}

#[test]
fn tracks_number_column_is_relative_to_the_selection() {
    let mut app = App::new();
    app.focus = Focus::Main;
    app.tracks = (0..5).map(|i| track(&i.to_string())).collect();
    app.track_list.select(Some(2));
    let numbers: Vec<String> = track_numbers(&app).into_iter().map(|n| n.text).collect();
    assert_eq!(numbers, ["2", "1", "3", "1", "2"]);
}

#[test]
fn tracks_number_column_is_absolute_when_the_pane_is_not_focused() {
    let mut app = App::new();
    app.focus = Focus::Sidebar;
    app.tracks = (0..5).map(|i| track(&i.to_string())).collect();
    app.track_list.select(Some(2));
    let numbers: Vec<String> = track_numbers(&app).into_iter().map(|n| n.text).collect();
    assert_eq!(numbers, ["1", "2", "3", "4", "5"]);
}

#[test]
fn relative_numbers_are_dimmed_but_the_cursor_number_is_not() {
    let mut app = App::new();
    app.focus = Focus::Main;
    app.tracks = (0..3).map(|i| track(&i.to_string())).collect();
    app.track_list.select(Some(1));
    let numbers = track_numbers(&app);
    assert!(numbers[0].dimmed);
    assert!(numbers[2].dimmed);
    assert!(!numbers[1].dimmed);
    assert_eq!(numbers[1].text, "2");
}

#[test]
fn a_row_far_from_the_cursor_shows_the_distance() {
    let number = track_number(Some(3), 120);
    assert_eq!(number.text, "117");
    assert!(number.dimmed);
    assert_eq!(track_number(None, 0).text, "1");
}

#[test]
fn volume_rounds_to_the_nearest_percent() {
    assert_eq!(volume_percent(0), 0);
    assert_eq!(volume_percent(u16::MAX), 100);
    assert_eq!(volume_percent(45_219), 69);
    assert_eq!(volume_percent(327), 0);
    assert_eq!(volume_percent(328), 1);
}

#[test]
fn the_track_list_is_titled_by_the_shown_playlist() {
    let mut app = App::new();
    assert_eq!(tracks_title(&app), "Tracks");
    app.playlists = vec![LibraryItem {
        source: Source::Playlist("p0".into()),
        name: "Hits".into(),
        track_count: 3,
    }];
    app.tracks_for = Some(Source::Playlist("p0".into()));
    assert_eq!(tracks_title(&app), "Hits");
    app.tracks_for = Some(Source::Playlist("gone".into()));
    assert_eq!(tracks_title(&app), "Tracks");
}
