//! What the outside world reports to the application.
use vstd::prelude::*;

use crate::model::{LibraryItem, Source, Track, TracksPage};
use crate::player::PlayerUpdate;

verus! {

/// A report for the application. A library answer carries the generation of
/// the connection it was asked on, and on failure the error's text.
#[derive(Debug)]
#[allow(inconsistent_fields)]
pub enum Message {
    Playlists { generation: u64, result: Result<Vec<LibraryItem>, String> },
    Tracks { generation: u64, source: Source, result: Result<TracksPage, String> },
    MoreTracks { generation: u64, source: Source, result: Result<Vec<Track>, String> },
    Player(PlayerUpdate),
    Tick,
}

} // verus!
