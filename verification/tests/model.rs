use lightify::model::{
    first_page_uris, playlist_id, playlist_track_uris, read_rootlist, rootlist_next, rootlist_page,
    to_playlists, to_track, EntryMeta, LibraryItem, Playlist, PlaylistItem, Source, Track, PAGE_SIZE,
};

fn meta(name: &str, length: i32) -> EntryMeta {
    EntryMeta {
        name: name.to_string(),
        length,
    }
}

#[test]
fn playlist_entries_convert_and_folder_markers_are_skipped() {
    let uris = vec![
        "spotify:playlist:37i9dQZF1DXcBWIGoYBM5M".to_string(),
        "spotify:start-group:abc:Folder".to_string(),
    ];
    let playlists = to_playlists(&uris, &vec![meta("Hits", 50), meta("Folder", 0)]);
    assert_eq!(
        playlists,
        vec![Playlist {
            id: "37i9dQZF1DXcBWIGoYBM5M".into(),
            name: "Hits".into(),
            track_count: 50,
        }]
    );
}

#[test]
fn entries_without_attributes_are_dropped_and_negative_lengths_count_as_zero() {
    let uris = vec![
        "spotify:playlist:37i9dQZF1DXcBWIGoYBM5M".to_string(),
        "spotify:playlist:4uLU6hMCjMI75M1A2tKUQC".to_string(),
    ];
    let playlists = to_playlists(&uris, &vec![meta("A", -3)]);
    assert_eq!(
        playlists,
        vec![Playlist {
            id: "37i9dQZF1DXcBWIGoYBM5M".into(),
            name: "A".into(),
            track_count: 0,
        }]
    );
}

#[test]
fn playlist_ids_come_back_in_canonical_base62() {
    assert_eq!(
        playlist_id("spotify:playlist:37i9dQZF1DXcBWIGoYBM5M"),
        Some("37i9dQZF1DXcBWIGoYBM5M".to_string())
    );
    assert_eq!(
        playlist_id("spotify:user:bob:playlist:0000000000000000000001"),
        Some("0000000000000000000001".to_string())
    );
    assert_eq!(playlist_id("spotify:track:6ZmzpDDsIJzKHFzxb5cOMj"), None);
    assert_eq!(playlist_id("spotify:playlist:too-short"), None);
    assert_eq!(playlist_id("not a uri"), None);
}

#[test]
fn track_conversion_keeps_uri_and_joins_artists() {
    let converted = to_track(
        "spotify:track:6ZmzpDDsIJzKHFzxb5cOMj",
        "Dani California".into(),
        282_160,
        vec!["Red Hot Chili Peppers".into()],
        "Stadium Arcadium".into(),
    );
    assert_eq!(converted.uri, "spotify:track:6ZmzpDDsIJzKHFzxb5cOMj");
    assert_eq!(converted.duration_ms, 282_160);
    assert_eq!(converted.artist_names(), "Red Hot Chili Peppers");
    assert_eq!(converted.album, "Stadium Arcadium");
}

#[test]
fn a_negative_duration_reads_as_zero() {
    let converted = to_track("u", "n".into(), -1, vec![], String::new());
    assert_eq!(converted.duration_ms, 0);
}

#[test]
fn artist_names_are_joined_with_commas() {
    let track = Track {
        uri: String::new(),
        name: String::new(),
        duration_ms: 0,
        artists: vec!["A".into(), "B".into(), "C".into()],
        album: String::new(),
    };
    assert_eq!(track.artist_names(), "A, B, C");
    let alone = Track { artists: vec![], ..track };
    assert_eq!(alone.artist_names(), "");
}

#[test]
fn a_playlist_becomes_a_sidebar_entry() {
    let item = LibraryItem::from_playlist(Playlist {
        id: "p".into(),
        name: "Mix".into(),
        track_count: 7,
    });
    assert_eq!(item.source, Source::Playlist("p".into()));
    assert_eq!(item.name, "Mix");
    assert_eq!(item.track_count, 7);
    assert!(item.source.same_as(&Source::Playlist("p".into())));
    assert!(!item.source.same_as(&Source::Playlist("q".into())));
}

#[test]
fn the_first_page_holds_at_most_fifty_uris() {
    let uris: Vec<String> = (0..120).map(|i| format!("spotify:track:t{i}")).collect();
    let first = first_page_uris(&uris);
    assert_eq!(first.len(), PAGE_SIZE);
    assert_eq!(first[49], "spotify:track:t49");
    let few: Vec<String> = vec!["a".into(), "b".into()];
    assert_eq!(first_page_uris(&few), few);
}

#[test]
fn the_root_list_is_read_page_by_page_until_its_end() {
    assert_eq!(rootlist_next(0, 120, 300), Some(120));
    assert_eq!(rootlist_next(240, 60, 300), None);
    assert_eq!(rootlist_next(0, 0, 300), None);
    assert_eq!(rootlist_next(0, 5, -1), None);
}

fn rootlist_bytes(entries: &[(&str, &str, i32)], length: i32) -> Vec<u8> {
    let mut contents = librespot::protocol::playlist4_external::ListItems::new();
    contents.set_pos(0);
    contents.set_truncated(false);
    for (uri, name, count) in entries {
        let mut item = librespot::protocol::playlist4_external::Item::new();
        item.set_uri(uri.to_string());
        let mut attributes = librespot::protocol::playlist4_external::ListAttributes::new();
        attributes.set_name(name.to_string());
        let mut meta = librespot::protocol::playlist4_external::MetaItem::new();
        meta.attributes = Some(attributes).into();
        meta.set_length(*count);
        contents.items.push(item);
        contents.meta_items.push(meta);
    }
    let mut list = librespot::protocol::playlist4_external::SelectedListContent::new();
    list.contents = Some(contents).into();
    list.set_length(length);
    protobuf::Message::write_to_bytes(&list).unwrap()
}

#[test]
fn a_root_list_page_is_read_from_its_bytes() {
    let bytes = rootlist_bytes(
        &[
            ("spotify:playlist:37i9dQZF1DXcBWIGoYBM5M", "Hits", 50),
            ("spotify:start-group:abc:Folder", "Folder", 0),
        ],
        5,
    );
    let list = read_rootlist(&bytes).unwrap();
    assert_eq!(
        list.uris,
        vec![
            "spotify:playlist:37i9dQZF1DXcBWIGoYBM5M".to_string(),
            "spotify:start-group:abc:Folder".to_string()
        ]
    );
    assert_eq!(list.length, 5);
    let (playlists, next) = rootlist_page(&list, 0);
    assert_eq!(
        playlists,
        vec![Playlist {
            id: "37i9dQZF1DXcBWIGoYBM5M".into(),
            name: "Hits".into(),
            track_count: 50,
        }]
    );
    assert_eq!(next, Some(2));
    let (_, last) = rootlist_page(&list, 3);
    assert_eq!(last, None);
}

#[test]
fn bytes_that_are_no_root_list_are_an_error() {
    assert!(read_rootlist(&[0xff, 0xff, 0xff]).is_err());
}

#[test]
fn only_the_tracks_of_a_playlist_are_listed() {
    let items = vec![
        PlaylistItem::Track("spotify:track:a".to_string()),
        PlaylistItem::Other,
        PlaylistItem::Track("spotify:track:b".to_string()),
        PlaylistItem::Other,
    ];
    assert_eq!(
        playlist_track_uris(&items),
        vec!["spotify:track:a".to_string(), "spotify:track:b".to_string()]
    );
    assert!(playlist_track_uris(&vec![PlaylistItem::Other]).is_empty());
}
