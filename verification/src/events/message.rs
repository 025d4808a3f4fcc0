//! Actions sent to the Spotify worker, state updates sent back, and the data
//! that travels with them.
use vstd::prelude::*;
use indexmap::IndexMap;

verus! {

/// A request from the interface to the Spotify worker.
#[derive(Debug, Clone)]
pub enum Action {
    Authenticate,
    /// Resume playback.
    Play,
    /// Play the track with this uri.
    PlayTrack(String),
    Pause,
    GetCurrentTrack,
    GetDevices,
    ChangeDevice(String),
    PreviousTrack,
    NextTrack,
    VolumeUp,
    VolumeDown,
    GetPlaylists,
    GetLikedSongs,
    GetPlaylistTracks(String),
    Search(String),
    GetProfile,
    CC,
    Quit,
}

/// A change of state reported by the Spotify worker to the interface.
#[derive(Debug)]
pub enum StateUpdateEnum {
    AuthStatus(AuthState),
    PlaybackStatus(bool),
    Volume(u8),
    Devices(Vec<Device>),
    Playlists(Vec<Playlist>),
    TrackInfo(Track),
    /// The tracks of the playlist with this id.
    TrackList(String, MusicList),
    /// The tracks a search found.
    SearchResults(Vec<Track>),
    CopyUrl(String),
    UserProfile(UserProfile),
    Error(String),
}

/// Where the authentication with Spotify stands.
#[derive(Debug, Clone, PartialEq, Eq)]
pub enum AuthState {
    Authenticated,
    NotAuthenticated,
    Authenticating { url: String },
    Error(String),
}

/// A track, as shown in the track information panel.
#[derive(Debug, Clone)]
pub struct Track {
    pub name: String,
    pub artist: String,
    pub album: String,
    pub duration_ms: u64,
    pub progress_ms: u64,
}

/// A track of a playlist.
#[derive(Debug, Clone)]
pub struct TrackItem {
    pub id: String,
    pub name: String,
    pub artist: String,
    pub album: String,
    pub duration_ms: u64,
    pub uri: String,
}

/// A track of a playlist, by the characters of its fields.
pub struct TrackItemView {
    pub id: Seq<char>,
    pub name: Seq<char>,
    pub artist: Seq<char>,
    pub album: Seq<char>,
    pub duration_ms: u64,
    pub uri: Seq<char>,
}

impl View for TrackItem {
    type V = TrackItemView;

    open spec fn view(&self) -> TrackItemView {
        TrackItemView {
            id: self.id@,
            name: self.name@,
            artist: self.artist@,
            album: self.album@,
            duration_ms: self.duration_ms,
            uri: self.uri@,
        }
    }
}

/// The tracks of a playlist, keyed by track id in the order first seen.
#[derive(Debug)]
pub struct MusicList {
    pub items: IndexMap<String, TrackItem>,
    pub total: usize,
    pub next: Option<String>,
}

/// A playlist of the user.
#[derive(Debug, Clone)]
pub struct Playlist {
    pub id: String,
    pub name: String,
    pub track_count: u64,
}

/// The profile of the signed-in user.
#[derive(Debug, Clone)]
pub struct UserProfile {
    pub id: String,
    pub display_name: Option<String>,
    pub email: Option<String>,
    pub country: Option<String>,
    pub product: Option<String>,
    pub followers: u64,
    pub profile_image_url: Option<String>,
    pub uri: String,
}

/// A Spotify Connect device.
#[derive(Debug, Clone)]
pub struct Device {
    pub id: String,
    pub name: String,
    pub is_active: bool,
    pub device_type: String,
    pub volume_percent: Option<u8>,
}

/// `indexmap::IndexMap`, a map that keeps its keys in insertion order; its
/// contents are seen only through `track_map_entries`.
#[verifier::external_type_specification]
#[verifier::external_body]
#[verifier::reject_recursive_types(K)]
#[verifier::reject_recursive_types(V)]
#[verifier::reject_recursive_types(S)]
pub struct ExIndexMap<K, V, S>(indexmap::IndexMap<K, V, S>);

/// What an `IndexMap` of tracks holds: its key-value pairs in their order, each
/// key by its characters.
pub uninterp spec fn track_map_entries(m: IndexMap<String, TrackItem>) -> Seq<(Seq<char>, TrackItemView)>;

/// The position of the first pair with key `key` among `entries`.
pub open spec fn entry_position(entries: Seq<(Seq<char>, TrackItemView)>, key: Seq<char>) -> Option<int>
    decreases entries.len(),
{
    if entries.len() == 0 {
        None
    } else if entries.last().0 == key && entry_position(entries.drop_last(), key) is None {
        Some(entries.len() - 1)
    } else {
        entry_position(entries.drop_last(), key)
    }
}

/// The pairs after inserting `value` under `key`: an existing key keeps its
/// place and takes the new value; a new key goes last.
pub open spec fn entries_insert(
    entries: Seq<(Seq<char>, TrackItemView)>,
    key: Seq<char>,
    value: TrackItemView,
) -> Seq<(Seq<char>, TrackItemView)> {
    match entry_position(entries, key) {
        Some(i) => entries.update(i, (key, value)),
        None => entries.push((key, value)),
    }
}

/// An empty map of tracks (`IndexMap::new`).
#[verifier::external_body]
pub(crate) fn track_map_new() -> (m: IndexMap<String, TrackItem>)
    ensures
        track_map_entries(m) == Seq::<(Seq<char>, TrackItemView)>::empty(),
{
    IndexMap::new()
}

/// `IndexMap::insert`: a key already present keeps its position and gets the
/// new value, whose predecessor is returned; a new key is appended last.
#[verifier::external_body]
pub(crate) fn track_map_insert(m: &mut IndexMap<String, TrackItem>, key: String, value: TrackItem) -> (previous: Option<TrackItem>)
    ensures
        track_map_entries(*final(m)) == entries_insert(track_map_entries(*old(m)), key@, value@),
        match entry_position(track_map_entries(*old(m)), key@) {
            Some(i) => previous matches Some(p) && p@ == track_map_entries(*old(m))[i].1,
            None => previous is None,
        },
{
    m.insert(key, value)
}

/// `IndexMap::len`: the number of pairs.
#[verifier::external_body]
pub(crate) fn track_map_len(m: &IndexMap<String, TrackItem>) -> (n: usize)
    ensures
        n == track_map_entries(*m).len(),
{
    m.len()
}

/// `IndexMap::get_index`: the pair at position `i`, if there is one.
#[verifier::external_body]
pub(crate) fn track_map_get_index(m: &IndexMap<String, TrackItem>, i: usize) -> (r: Option<(&String, &TrackItem)>)
    ensures
        match r {
            Some(pair) => i < track_map_entries(*m).len() && pair.0@ == track_map_entries(*m)[i as int].0
                && pair.1@ == track_map_entries(*m)[i as int].1,
            None => i >= track_map_entries(*m).len(),
        },
{
    m.get_index(i)
}

impl MusicList {
    /// The number of tracks.
    pub fn len(&self) -> (n: usize)
        ensures
            n == track_map_entries(self.items).len(),
    {
        track_map_len(&self.items)
    }

    /// The track id and track at position `i`, if there is one.
    pub fn get_index(&self, i: usize) -> (r: Option<(&String, &TrackItem)>)
        ensures
            match r {
                Some(pair) => i < track_map_entries(self.items).len() && pair.0@
                    == track_map_entries(self.items)[i as int].0 && pair.1@ == track_map_entries(
                    self.items,
                )[i as int].1,
                None => i >= track_map_entries(self.items).len(),
            },
    {
        track_map_get_index(&self.items, i)
    }
}

} // verus!
