//! What the library knows about playlists and tracks.
use vstd::prelude::*;

use crate::text::{join, joined, texts};

verus! {

/// How many tracks one page of a playlist holds.
pub const PAGE_SIZE: usize = 50;

/// A playlist of the user's root list.
#[derive(Debug, Clone, PartialEq, Eq)]
pub struct Playlist {
    pub id: String,
    pub name: String,
    pub track_count: usize,
}

/// Where a list of tracks comes from.
#[derive(Debug, Clone, PartialEq, Eq)]
pub enum Source {
    /// A playlist, by its base62 id.
    Playlist(String),
}

impl View for Source {
    type V = Seq<char>;

    /// The id that names the source.
    open spec fn view(&self) -> Seq<char> {
        match self {
            Source::Playlist(id) => id@,
        }
    }
}

impl Source {
    /// A copy of this source.
    pub fn copy(&self) -> (copy: Source)
        ensures
            copy == *self,
    {
        match self {
            Source::Playlist(id) => Source::Playlist(id.clone()),
        }
    }

    /// Whether both name the same source.
    pub fn same_as(&self, other: &Source) -> (same: bool)
        ensures
            same == (self@ == other@),
    {
        match (self, other) {
            (Source::Playlist(a), Source::Playlist(b)) => a.eq(b),
        }
    }
}

/// An entry of the sidebar.
#[derive(Debug, Clone, PartialEq, Eq)]
pub struct LibraryItem {
    pub source: Source,
    pub name: String,
    pub track_count: usize,
}

impl LibraryItem {
    /// The sidebar entry of a playlist.
    pub fn from_playlist(playlist: Playlist) -> (item: LibraryItem)
        ensures
            item.source == Source::Playlist(playlist.id),
            item.name == playlist.name,
            item.track_count == playlist.track_count,
    {
        LibraryItem {
            source: Source::Playlist(playlist.id),
            name: playlist.name,
            track_count: playlist.track_count,
        }
    }
}

/// A track with the details that the track list shows.
#[derive(Debug, Clone, PartialEq, Eq)]
pub struct Track {
    pub uri: String,
    pub name: String,
    pub duration_ms: u32,
    pub artists: Vec<String>,
    pub album: String,
}

impl Track {
    /// The artists' names separated by ", ".
    pub fn artist_names(&self) -> (names: String)
        ensures
            names@ == joined(texts(self.artists@), ", "@),
    {
        join(&self.artists, ", ")
    }
}

/// The first page of a playlist: every track's uri, and the details of the
/// first tracks.
#[derive(Debug, PartialEq, Eq)]
pub struct TracksPage {
    pub uris: Vec<String>,
    pub tracks: Vec<Track>,
}

/// The uris whose details the first page of a playlist loads: the first
/// `PAGE_SIZE`, or all when there are fewer.
pub fn first_page_uris(uris: &Vec<String>) -> (first: Vec<String>)
    ensures
        first@ == uris@.take(if uris@.len() <= PAGE_SIZE { uris@.len() as int } else { PAGE_SIZE as int }),
{
    let n = if uris.len() <= PAGE_SIZE {
        uris.len()
    } else {
        PAGE_SIZE
    };
    let mut first: Vec<String> = Vec::new();
    let mut i: usize = 0;
    while i < n
        invariant
            n <= uris@.len(),
            i <= n,
            first@ == uris@.take(i as int),
        decreases n - i,
    {
        first.push(uris[i].clone());
        proof {
            assert(uris@.take(i + 1) =~= uris@.take(i as int).push(uris@[i as int]));
        }
        i = i + 1;
    }
    first
}

/// An item of a playlist, as far as the track list reads it.
#[derive(Debug, Clone, PartialEq, Eq)]
pub enum PlaylistItem {
    /// A track, by its uri.
    Track(String),
    /// An episode, a local file or any other item, which the track list skips.
    Other,
}

/// The uris of the tracks among `items`, in order.
pub open spec fn spec_track_uris(items: Seq<PlaylistItem>) -> Seq<String>
    decreases items.len(),
{
    if items.len() == 0 {
        Seq::empty()
    } else {
        let earlier = spec_track_uris(items.drop_last());
        match items.last() {
            PlaylistItem::Track(uri) => earlier.push(uri),
            PlaylistItem::Other => earlier,
        }
    }
}

/// The uris of the tracks of a playlist, in order; other items are skipped.
pub fn playlist_track_uris(items: &Vec<PlaylistItem>) -> (uris: Vec<String>)
    ensures
        uris@ == spec_track_uris(items@),
{
    let mut uris: Vec<String> = Vec::new();
    let mut i: usize = 0;
    while i < items.len()
        invariant
            i <= items@.len(),
            uris@ == spec_track_uris(items@.take(i as int)),
        decreases items@.len() - i,
    {
        proof {
            assert(items@.take(i + 1).drop_last() =~= items@.take(i as int));
        }
        match &items[i] {
            PlaylistItem::Track(uri) => uris.push(uri.clone()),
            PlaylistItem::Other => {},
        }
        i = i + 1;
    }
    proof {
        assert(items@.take(items@.len() as int) =~= items@);
    }
    uris
}

/// Where the next page of the root list starts, after `fetched` entries were
/// read from offset `from` of a list of `total` entries; `None` when the list
/// is done: nothing came back, or the end is reached.
pub open spec fn spec_rootlist_next(from: usize, fetched: usize, total: i32) -> Option<usize> {
    let next = from + fetched;
    let known: int = if total < 0 { 0 } else { total as int };
    if fetched == 0 || next >= known {
        None
    } else {
        Some(next as usize)
    }
}

/// Decides whether to read another page of the root list, and from where.
pub fn rootlist_next(from: usize, fetched: usize, total: i32) -> (next: Option<usize>)
    requires
        from + fetched <= usize::MAX,
    ensures
        next == spec_rootlist_next(from, fetched, total),
{
    let next = from + fetched;
    let total: usize = if total < 0 {
        0
    } else {
        total as usize
    };
    if fetched == 0 || next >= total {
        None
    } else {
        Some(next)
    }
}

/// One page of the user's root list, as read from the bytes that the Spotify
/// client returns: the uri of each entry, the attributes of each entry, and
/// how many entries the whole list has.
#[derive(Debug, Clone, PartialEq, Eq)]
pub struct RootList {
    pub uris: Vec<String>,
    pub metas: Vec<EntryMeta>,
    pub length: i32,
}

/// The text of each uri, the name and length of each entry's attributes, and
/// the list's length.
pub open spec fn root_list_view(list: RootList) -> (Seq<Seq<char>>, Seq<(Seq<char>, i32)>, i32) {
    (
        list.uris@.map_values(|u: String| u@),
        list.metas@.map_values(|m: EntryMeta| (m.name@, m.length)),
        list.length,
    )
}

/// The root-list page that the protobuf message `SelectedListContent` encoded
/// in `bytes` holds, read as `root_list_view` reads a `RootList`; `None` when
/// the bytes do not parse.
pub uninterp spec fn spec_rootlist(bytes: Seq<u8>) -> Option<(Seq<Seq<char>>, Seq<(Seq<char>, i32)>, i32)>;

/// Parses a root-list page (`protobuf::Message::parse_from_bytes` for
/// `SelectedListContent`) and takes out each item's uri, each meta item's
/// name and length, and the list's length. The contract names the result:
/// the wire format is protobuf's. A failure carries the text of the error
/// as librespot reports it.
#[verifier::external_body]
fn parse_rootlist(bytes: &[u8]) -> (list: Result<RootList, String>)
    ensures
        list is Err <==> spec_rootlist(bytes@) is None,
        list matches Ok(l) ==> spec_rootlist(bytes@) == Some(root_list_view(l)),
{
    match <librespot::protocol::playlist4_external::SelectedListContent as protobuf::Message>::parse_from_bytes(bytes) {
        Ok(list) => Ok(RootList {
            uris: list.contents.items.iter().map(|item| item.uri().to_string()).collect(),
            metas: list.contents.meta_items.iter().map(|meta| EntryMeta { name: meta.attributes.name().to_string(), length: meta.length() }).collect(),
            length: list.length(),
        }),
        Err(error) => Err(librespot::core::Error::from(error).to_string()),
    }
}

/// Reads one page of the root list from the bytes the Spotify client
/// returned; on failure, the error's text.
pub fn read_rootlist(bytes: &[u8]) -> (list: Result<RootList, String>)
    ensures
        list is Err <==> spec_rootlist(bytes@) is None,
        list matches Ok(l) ==> spec_rootlist(bytes@) == Some(root_list_view(l)),
{
    parse_rootlist(bytes)
}

/// The playlists of a root-list page read from offset `from`, and where the
/// next page starts, if there is one.
pub fn rootlist_page(list: &RootList, from: usize) -> (page: (Vec<Playlist>, Option<usize>))
    requires
        from + list.uris@.len() <= usize::MAX,
    ensures
        ({
            let n: nat = if list.uris@.len() <= list.metas@.len() { list.uris@.len() } else { list.metas@.len() };
            let entries = spec_playlist_entries(list.uris@, n);
            &&& page.0@.len() == entries.len()
            &&& forall|k: int|
                0 <= k < entries.len() ==> spec_entry_playlist(
                    list.uris@[entries[k]],
                    list.metas@[entries[k]],
                    #[trigger] page.0@[k],
                )
        }),
        page.1 == spec_rootlist_next(from, list.uris@.len() as usize, list.length),
{
    let playlists = to_playlists(&list.uris, &list.metas);
    let next = rootlist_next(from, list.uris.len(), list.length);
    (playlists, next)
}

/// A duration in milliseconds as the metadata gives it, with negative values read as zero.
pub open spec fn spec_duration_ms(duration: i32) -> u32 {
    if duration < 0 {
        0
    } else {
        duration as u32
    }
}

/// Builds a track from the fields of a track's metadata.
pub fn to_track(uri: &str, name: String, duration: i32, artists: Vec<String>, album: String) -> (track: Track)
    ensures
        track.uri@ == uri@,
        track.name == name,
        track.duration_ms == spec_duration_ms(duration),
        track.artists == artists,
        track.album == album,
{
    let duration_ms: u32 = if duration < 0 {
        0
    } else {
        duration as u32
    };
    Track { uri: uri.to_owned(), name, duration_ms, artists, album }
}

/// The id of the playlist that the Spotify uri `uri` names, as librespot's
/// `SpotifyUri::from_uri` reads it; `None` when the uri names no playlist or
/// does not parse.
pub uninterp spec fn spec_playlist_uri_id(uri: Seq<char>) -> Option<u128>;

/// Reads a Spotify uri (`SpotifyUri::from_uri`) and keeps the id when it is a
/// playlist uri. The contract only names the result: it depends on the uri
/// alone, and the uri grammar is librespot's.
#[verifier::external_body]
fn playlist_uri_id(uri: &str) -> (id: Option<u128>)
    ensures
        id == spec_playlist_uri_id(uri@),
{
    match librespot::core::SpotifyUri::from_uri(uri) {
        Ok(librespot::core::SpotifyUri::Playlist { id, .. }) => Some(id.id),
        _ => None,
    }
}

/// The character of base-62 digit `d`: digits, then lower case, then upper case letters.
pub open spec fn base62_digit(d: nat) -> char {
    if d < 10 {
        (48 + d) as char
    } else if d < 36 {
        (97 + d - 10) as char
    } else {
        (65 + d - 36) as char
    }
}

/// The last `width` base-62 digits of `n`, most significant first.
pub open spec fn base62_digits(n: nat, width: nat) -> Seq<char>
    decreases width,
{
    if width == 0 {
        Seq::empty()
    } else {
        base62_digits(n / 62, (width - 1) as nat).push(base62_digit(n % 62))
    }
}

/// The canonical text of a Spotify id: its 22 base-62 digits.
pub open spec fn spec_base62(id: u128) -> Seq<char> {
    base62_digits(id as nat, 22)
}

/// Writes a Spotify id in base 62 (`SpotifyId::to_base62`). Its documentation
/// promises the canonical base-62 text of 22 characters; the digits are
/// `0-9a-zA-Z`, and the conversion cannot fail (the bytes are ASCII).
#[verifier::external_body]
fn base62(id: u128) -> (text: Option<String>)
    ensures
        text is Some,
        text.unwrap()@ == spec_base62(id),
{
    librespot::core::SpotifyId { id }.to_base62().ok()
}

/// The base-62 id of the playlist that `uri` names, if it names one.
pub fn playlist_id(uri: &str) -> (id: Option<String>)
    ensures
        match spec_playlist_uri_id(uri@) {
            Some(n) => id matches Some(text) && text@ == spec_base62(n),
            None => id is None,
        },
{
    match playlist_uri_id(uri) {
        Some(n) => base62(n),
        None => None,
    }
}

/// The attributes of one root-list entry.
#[derive(Debug, Clone, PartialEq, Eq)]
pub struct EntryMeta {
    pub name: String,
    pub length: i32,
}

/// A track count as the root list gives it, with negative values read as zero.
pub open spec fn spec_track_count(length: i32) -> usize {
    if length < 0 {
        0
    } else {
        length as usize
    }
}

/// The positions, among the first `n`, of the entries whose uri names a playlist.
pub open spec fn spec_playlist_entries(uris: Seq<String>, n: nat) -> Seq<int>
    decreases n,
{
    if n == 0 {
        Seq::empty()
    } else {
        let before = spec_playlist_entries(uris, (n - 1) as nat);
        if spec_playlist_uri_id(uris[n - 1]@) is Some {
            before.push(n - 1)
        } else {
            before
        }
    }
}

/// Whether `playlist` is what the entry with uri `uri` and attributes `meta` becomes.
pub open spec fn spec_entry_playlist(uri: String, meta: EntryMeta, playlist: Playlist) -> bool {
    &&& spec_playlist_uri_id(uri@) matches Some(n) && playlist.id@ == spec_base62(n)
    &&& playlist.name == meta.name
    &&& playlist.track_count == spec_track_count(meta.length)
}

/// Pairs the root list's entries (their uris) with their attributes and keeps
/// the playlists, in order; other entries, such as folder markers, are
/// skipped. Entries past the shorter of the two lists are dropped.
pub fn to_playlists(uris: &Vec<String>, metas: &Vec<EntryMeta>) -> (playlists: Vec<Playlist>)
    ensures
        ({
            let n: nat = if uris@.len() <= metas@.len() { uris@.len() } else { metas@.len() };
            let entries = spec_playlist_entries(uris@, n);
            &&& playlists@.len() == entries.len()
            &&& forall|k: int|
                0 <= k < entries.len() ==> spec_entry_playlist(
                    uris@[entries[k]],
                    metas@[entries[k]],
                    #[trigger] playlists@[k],
                )
        }),
{
    let n = if uris.len() <= metas.len() {
        uris.len()
    } else {
        metas.len()
    };
    let mut playlists: Vec<Playlist> = Vec::new();
    let mut i: usize = 0;
    while i < n
        invariant
            n <= uris@.len(),
            n <= metas@.len(),
            i <= n,
            playlists@.len() == spec_playlist_entries(uris@, i as nat).len(),
            forall|k: int|
                0 <= k < playlists@.len() ==> spec_entry_playlist(
                    uris@[spec_playlist_entries(uris@, i as nat)[k]],
                    metas@[spec_playlist_entries(uris@, i as nat)[k]],
                    #[trigger] playlists@[k],
                ),
        decreases n - i,
    {
        let ghost before = spec_playlist_entries(uris@, i as nat);
        match playlist_id(uris[i].as_str()) {
            Some(id) => {
                let meta = &metas[i];
                let track_count: usize = if meta.length < 0 {
                    0
                } else {
                    meta.length as usize
                };
                playlists.push(Playlist { id, name: meta.name.clone(), track_count });
                proof {
                    assert(spec_playlist_entries(uris@, (i + 1) as nat) == before.push(i as int));
                }
            },
            None => {
                proof {
                    assert(spec_playlist_entries(uris@, (i + 1) as nat) == before);
                }
            },
        }
        i = i + 1;
    }
    playlists
}

} // verus!
