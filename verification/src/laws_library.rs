//! What is read from the library: which root-list entries become playlists,
//! and which playlist items become tracks.
use vstd::prelude::*;

use crate::model::{spec_duration_ms, spec_rootlist_next, spec_playlist_entries, spec_playlist_uri_id, spec_track_count, spec_track_uris, PlaylistItem};

verus! {

/// The playlists of the root list are exactly its entries whose uri names
/// a playlist, each once, in the order of the list; other entries (folders
/// and the like) are skipped.
pub proof fn lemma_root_list_keeps_every_playlist(uris: Seq<String>, n: nat)
    requires
        n <= uris.len(),
    ensures
        ({
            let entries = spec_playlist_entries(uris, n);
            &&& forall|k: int|
                0 <= k < entries.len() ==> 0 <= #[trigger] entries[k] < n && spec_playlist_uri_id(
                    uris[entries[k]]@,
                ) is Some
            &&& forall|k: int, l: int| 0 <= k < l < entries.len() ==> #[trigger] entries[k] < #[trigger] entries[l]
            &&& forall|j: int|
                0 <= j < n && #[trigger] spec_playlist_uri_id(uris[j]@) is Some ==> exists|k: int|
                    0 <= k < entries.len() && entries[k] == j
        }),
    decreases n,
{
    if n > 0 {
        lemma_root_list_keeps_every_playlist(uris, (n - 1) as nat);
        let before = spec_playlist_entries(uris, (n - 1) as nat);
        let entries = spec_playlist_entries(uris, n);
        let last = n - 1;
        if spec_playlist_uri_id(uris[last]@) is Some {
            assert(entries == before.push(last));
            assert forall|j: int|
                0 <= j < n && #[trigger] spec_playlist_uri_id(uris[j]@) is Some implies exists|k: int|
                    0 <= k < entries.len() && entries[k] == j by {
                if j == last {
                    assert(entries[before.len() as int] == j);
                } else {
                    let k = choose|k: int| 0 <= k < before.len() && before[k] == j;
                    assert(entries[k] == j);
                }
            }
        } else {
            assert(entries == before);
        }
    }
}

/// A track count below zero is read as none.
pub proof fn lemma_track_counts(length: i32)
    ensures
        length < 0 ==> spec_track_count(length) == 0,
        length >= 0 ==> spec_track_count(length) == length,
{
}

/// The tracks of a playlist are the uris of its track items, in order:
/// every other item is skipped, and nothing else is added.
pub proof fn lemma_playlists_keep_their_tracks(items: Seq<PlaylistItem>)
    ensures
        spec_track_uris(items) == items.filter(|item: PlaylistItem| item is Track).map_values(
            |item: PlaylistItem| item->Track_0,
        ),
    decreases items.len(),
{
    reveal(Seq::filter);
    if items.len() > 0 {
        lemma_playlists_keep_their_tracks(items.drop_last());
        let kept = items.drop_last().filter(|item: PlaylistItem| item is Track);
        if items.last() is Track {
            assert(kept.push(items.last()).map_values(|item: PlaylistItem| item->Track_0) =~= kept.map_values(
                |item: PlaylistItem| item->Track_0,
            ).push(items.last()->Track_0));
        }
    }
}


/// A track's duration below zero is read as none.
pub proof fn lemma_track_durations(duration: i32)
    ensures
        duration < 0 ==> spec_duration_ms(duration) == 0,
        duration >= 0 ==> spec_duration_ms(duration) == duration,
{
}

/// The root list is read page after page: the next page starts right after
/// the entries just read, as long as some came back and the list has more;
/// otherwise the reading is done.
pub proof fn lemma_root_list_pages(from: usize, fetched: usize, total: i32)
    ensures
        (fetched > 0 && from + fetched < total) ==> spec_rootlist_next(from, fetched, total) == Some(
            (from + fetched) as usize,
        ),
        (fetched == 0 || from + fetched >= total) ==> spec_rootlist_next(from, fetched, total) is None,
{
}

} // verus!
