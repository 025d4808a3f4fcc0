//! The state of the terminal interface, how the worker's updates change it and
//! how key presses move through it.
use vstd::prelude::*;
use vstd::hash_map::StringHashMap;
use crate::events::message::{
    Action, AuthState, Device, MusicList, Playlist, StateUpdateEnum, Track, TrackItemView, UserProfile,
    track_map_entries,
};

verus! {

/// The panel that has the keyboard focus.
#[derive(Debug, Clone, Copy, PartialEq, Eq, Structural)]
pub enum Focus {
    Playlist,
    Search,
    MusicList,
    Devices,
}

/// A key press, as far as the interface tells keys apart.
#[derive(Debug, Clone, Copy, PartialEq, Eq, Structural)]
pub enum Key {
    Char(char),
    Up,
    Down,
    Left,
    Right,
    Tab,
    Enter,
    Other,
}

/// What a key press asks of the program, besides the change of state.
#[derive(Debug, Clone)]
pub enum KeyOutcome {
    /// Leave the program.
    Quit,
    /// Send this action to the Spotify worker.
    Send(Action),
    /// Put this text on the clipboard.
    CopyToClipboard(String),
    /// Nothing more.
    Nothing,
}

/// Everything the interface shows.
pub struct AppState {
    pub auth_url: Option<String>,
    pub status: Option<String>,
    pub volume: Option<u8>,
    pub playlist: Option<Vec<Playlist>>,
    pub search: Option<String>,
    /// The tracks of every playlist loaded so far, by playlist id; the music
    /// list panel shows those of the selected playlist.
    pub music_list: StringHashMap<MusicList>,
    /// The tracks the last search found.
    pub search_results: Option<Vec<Track>>,
    pub active_playlist_id: Option<String>,
    pub available_devices: Option<Vec<Device>>,
    pub auth_state: AuthState,
    pub current_track_info: Option<Track>,
    pub user_profile: Option<UserProfile>,
    pub is_playing: bool,
    pub focus: Focus,
    pub tick: usize,
    pub error_message: Option<String>,
    pub selected_playlist_index: usize,
    pub selected_music_index: usize,
    pub selected_device_index: usize,
    pub playlist_scroll_offset: usize,
    pub musiclist_scroll_offset: usize,
    pub visible_rows_playlist: usize,
    pub visible_rows_musiclist: usize,
}

/// The focus after Tab: Playlist, MusicList, Search, Devices, and round again.
pub open spec fn next_focus(f: Focus) -> Focus {
    match f {
        Focus::Playlist => Focus::MusicList,
        Focus::MusicList => Focus::Search,
        Focus::Search => Focus::Devices,
        Focus::Devices => Focus::Playlist,
    }
}

/// The number of elements of an optional list (0 when there is none).
pub open spec fn opt_len<T>(l: Option<Vec<T>>) -> nat {
    match l {
        Some(v) => v@.len(),
        None => 0,
    }
}

/// One step up a list: the index less one, but not below 0.
pub open spec fn step_up(i: usize) -> usize {
    if i > 0 {
        (i - 1) as usize
    } else {
        i
    }
}

/// One step down a list of `len` elements: the index plus one, but not past
/// the last element.
pub open spec fn step_down(i: usize, len: nat) -> usize {
    if len > 0 && i < len - 1 {
        (i + 1) as usize
    } else {
        i
    }
}

/// The playlist the playlist panel has selected, if the index points at one.
pub open spec fn selected_playlist(s: AppState) -> Option<Playlist> {
    match s.playlist {
        Some(p) => if s.selected_playlist_index < p@.len() {
            Some(p@[s.selected_playlist_index as int])
        } else {
            None
        },
        None => None,
    }
}

/// The tracks the music list panel shows: those loaded for the selected
/// playlist, if any are.
pub open spec fn shown_tracks(s: AppState) -> Option<MusicList> {
    match selected_playlist(s) {
        Some(p) => if s.music_list@.contains_key(p.id@) {
            Some(s.music_list@[p.id@])
        } else {
            None
        },
        None => None,
    }
}

/// The tracks shown, by id, in their order (none when nothing is shown).
pub open spec fn shown_entries(s: AppState) -> Seq<(Seq<char>, TrackItemView)> {
    match shown_tracks(s) {
        Some(m) => track_map_entries(m.items),
        None => Seq::empty(),
    }
}

/// The number of tracks shown.
pub open spec fn shown_len(s: AppState) -> nat {
    shown_entries(s).len()
}

/// The number of lines of the music list: the tracks the last search found
/// while they are shown, otherwise the tracks of the selected playlist.
pub open spec fn music_len(s: AppState) -> nat {
    match s.search_results {
        Some(v) => v@.len(),
        None => shown_len(s),
    }
}

/// The uri of the playlist track the music list panel has selected, if it
/// shows a playlist's tracks and the index points at one.
pub open spec fn selected_track_uri(s: AppState) -> Option<Seq<char>> {
    if s.search_results is None && s.selected_music_index < shown_len(s) {
        Some(shown_entries(s)[s.selected_music_index as int].1.uri)
    } else {
        None
    }
}

/// The selected playlist, when its tracks have not been loaded yet.
pub open spec fn needs_tracks(s: AppState) -> Option<Playlist> {
    match selected_playlist(s) {
        Some(p) => if s.music_list@.contains_key(p.id@) {
            None
        } else {
            Some(p)
        },
        None => None,
    }
}

/// One step of a selection `i` in a list of `n` lines, from `i` to `j`: Up
/// goes to the line before, but not below the first; Down to the line after,
/// but not past the last; a selection inside the list stays inside it.
pub open spec fn up_down_step(key: Key, i: usize, n: nat, j: usize) -> bool {
    &&& key == Key::Up ==> j == (if i > 0 {
        i - 1
    } else {
        i as int
    })
    &&& key == Key::Down ==> j == (if n > 0 && i < n - 1 {
        i + 1
    } else {
        i as int
    })
    &&& i < n ==> j < n
}

/// The state after a key press. Moving through the playlists ends the
/// display of search results, so the music list shows the tracks of the
/// playlist moved to.
pub open spec fn after_key(s: AppState, key: Key) -> AppState {
    match key {
        Key::Up => match s.focus {
            Focus::Playlist => AppState {
                selected_playlist_index: step_up(s.selected_playlist_index),
                search_results: None,
                ..s
            },
            Focus::MusicList => AppState { selected_music_index: step_up(s.selected_music_index), ..s },
            _ => s,
        },
        Key::Down => match s.focus {
            Focus::Playlist => AppState {
                selected_playlist_index: step_down(s.selected_playlist_index, opt_len(s.playlist)),
                search_results: None,
                ..s
            },
            Focus::MusicList => AppState {
                selected_music_index: step_down(s.selected_music_index, music_len(s)),
                ..s
            },
            _ => s,
        },
        Key::Tab => AppState { focus: next_focus(s.focus), ..s },
        Key::Left => if s.focus == Focus::Devices {
            AppState { selected_device_index: step_up(s.selected_device_index), ..s }
        } else {
            s
        },
        Key::Right => if s.focus == Focus::Devices {
            AppState {
                selected_device_index: step_down(s.selected_device_index, opt_len(s.available_devices)),
                ..s
            }
        } else {
            s
        },
        _ => s,
    }
}

/// The request for the tracks of the newly selected playlist after `key`:
/// when the key moved the playlist selection and the playlist now selected
/// has no tracks loaded, they are asked for; otherwise nothing.
pub open spec fn tracks_request_after(s: AppState, key: Key) -> KeyOutcome {
    let t = after_key(s, key);
    if t.selected_playlist_index != s.selected_playlist_index && needs_tracks(t) is Some {
        KeyOutcome::Send(Action::GetPlaylistTracks(needs_tracks(t)->0.id))
    } else {
        KeyOutcome::Nothing
    }
}

/// `r` is what a key press asks of the program: `q` quits; `a` asks to
/// authenticate; `c` copies the authorization address, when there is one;
/// Space plays the selected track when the music list has the focus and a
/// track selected, and otherwise pauses what plays and plays what is paused;
/// Up and Down in the playlist panel ask for the tracks of the playlist
/// moved to, unless they are loaded; Left and Right skip tracks unless the
/// devices panel has the focus; Enter there switches to the selected device.
pub open spec fn key_outcome_is(s: AppState, key: Key, r: KeyOutcome) -> bool {
    match key {
        Key::Char(c) => if c == 'q' {
            r == KeyOutcome::Quit
        } else if c == 'a' {
            r == KeyOutcome::Send(Action::Authenticate)
        } else if c == 'c' {
            r == match s.auth_url {
                Some(url) => KeyOutcome::CopyToClipboard(url),
                None => KeyOutcome::Nothing,
            }
        } else if c == ' ' {
            if s.focus == Focus::MusicList && selected_track_uri(s) is Some {
                r matches KeyOutcome::Send(Action::PlayTrack(u)) && u@ == selected_track_uri(s)->0
            } else if s.is_playing {
                r == KeyOutcome::Send(Action::Pause)
            } else {
                r == KeyOutcome::Send(Action::Play)
            }
        } else {
            r == KeyOutcome::Nothing
        },
        Key::Up | Key::Down => if s.focus == Focus::Playlist {
            r == tracks_request_after(s, key)
        } else {
            r == KeyOutcome::Nothing
        },
        Key::Left => r == if s.focus == Focus::Devices {
            KeyOutcome::Nothing
        } else {
            KeyOutcome::Send(Action::PreviousTrack)
        },
        Key::Right => r == if s.focus == Focus::Devices {
            KeyOutcome::Nothing
        } else {
            KeyOutcome::Send(Action::NextTrack)
        },
        Key::Enter => r == if s.focus == Focus::Devices {
            match s.available_devices {
                Some(devices) => if s.selected_device_index < devices@.len() {
                    KeyOutcome::Send(Action::ChangeDevice(devices@[s.selected_device_index as int].id))
                } else {
                    KeyOutcome::Nothing
                },
                None => KeyOutcome::Nothing,
            }
        } else {
            KeyOutcome::Nothing
        },
        _ => r == KeyOutcome::Nothing,
    }
}

/// The device index kept after a new list of `len` devices: the last device
/// when the index is past the end, 0 when there are none.
pub open spec fn clamp_index(i: usize, len: nat) -> usize {
    if len == 0 {
        0
    } else if i >= len {
        (len - 1) as usize
    } else {
        i
    }
}

/// The selected device is one of the devices, or 0 when there are none.
pub open spec fn device_selection_ok(s: AppState) -> bool {
    s.selected_device_index < opt_len(s.available_devices) || (opt_len(s.available_devices) == 0
        && s.selected_device_index == 0)
}

/// The actions that follow a successful authentication: the profile, the
/// playlists, the liked songs, the current track and the devices.
pub open spec fn post_auth_actions() -> Seq<Action> {
    seq![
        Action::GetProfile,
        Action::GetPlaylists,
        Action::GetLikedSongs,
        Action::GetCurrentTrack,
        Action::GetDevices,
    ]
}

fn step_down_exec(i: usize, len: usize) -> (r: usize)
    ensures
        r == step_down(i, len as nat),
{
    if len > 0 && i < len - 1 {
        i + 1
    } else {
        i
    }
}

fn list_len<T>(l: &Option<Vec<T>>) -> (n: usize)
    ensures
        n == opt_len(*l),
{
    match l {
        Some(v) => v.len(),
        None => 0,
    }
}

impl AppState {
    /// The state at start-up: not authenticated, nothing loaded, the playlist
    /// panel focused and every index at 0.
    pub fn new() -> (s: AppState)
        ensures
            s.auth_state == AuthState::NotAuthenticated,
            s.current_track_info is None,
            s.user_profile is None,
            s.error_message is None,
            !s.is_playing,
            s.music_list@ == Map::<Seq<char>, MusicList>::empty(),
            s.search_results is None,
            s.active_playlist_id is None,
            s.available_devices is None,
            s.playlist is None,
            s.search is None,
            s.status is None,
            s.volume is None,
            s.auth_url is None,
            s.focus == Focus::Playlist,
            s.selected_playlist_index == 0,
            s.selected_music_index == 0,
            s.selected_device_index == 0,
            s.tick == 0,
            s.playlist_scroll_offset == 0,
            s.visible_rows_playlist == 0,
            s.musiclist_scroll_offset == 0,
            s.visible_rows_musiclist == 0,
            device_selection_ok(s),
    {
        AppState {
            auth_state: AuthState::NotAuthenticated,
            current_track_info: None,
            user_profile: None,
            error_message: None,
            is_playing: false,
            music_list: StringHashMap::new(),
            search_results: None,
            active_playlist_id: None,
            available_devices: None,
            playlist: None,
            search: None,
            status: None,
            volume: None,
            auth_url: None,
            focus: Focus::Playlist,
            selected_playlist_index: 0,
            selected_music_index: 0,
            selected_device_index: 0,
            tick: 0,
            playlist_scroll_offset: 0,
            visible_rows_playlist: 0,
            musiclist_scroll_offset: 0,
            visible_rows_musiclist: 0,
        }
    }

    /// Advances the animation counter by one.
    pub fn on_tick(&mut self)
        requires
            old(self).tick < usize::MAX,
        ensures
            *final(self) == (AppState { tick: (old(self).tick + 1) as usize, ..*old(self) }),
    {
        self.tick = self.tick + 1;
    }

    /// Sets the animation counter back to 0.
    pub fn reset_tick(&mut self)
        ensures
            *final(self) == (AppState { tick: 0, ..*old(self) }),
    {
        self.tick = 0;
    }

    /// The tracks of the selected playlist, when they are loaded.
    pub fn shown_music_list(&self) -> (r: Option<&MusicList>)
        ensures
            match shown_tracks(*self) {
                Some(m) => r == Some(&m),
                None => r is None,
            },
    {
        match &self.playlist {
            Some(list) => {
                if self.selected_playlist_index < list.len() {
                    self.music_list.get(list[self.selected_playlist_index].id.as_str())
                } else {
                    None
                }
            },
            None => None,
        }
    }

    /// The number of lines the music list panel shows.
    fn music_count(&self) -> (n: usize)
        ensures
            n == music_len(*self),
    {
        match &self.search_results {
            Some(v) => v.len(),
            None => match self.shown_music_list() {
                Some(m) => m.len(),
                None => 0,
            },
        }
    }

    /// The uri of the selected track of the music list, if one is selected.
    fn selected_uri(&self) -> (r: Option<String>)
        ensures
            match selected_track_uri(*self) {
                Some(u) => r matches Some(x) && x@ == u,
                None => r is None,
            },
    {
        if self.search_results.is_some() {
            return None;
        }
        match self.shown_music_list() {
            Some(m) => match m.get_index(self.selected_music_index) {
                Some(pair) => Some(pair.1.uri.clone()),
                None => None,
            },
            None => None,
        }
    }

    /// The request for the tracks of the selected playlist, when they are not
    /// loaded yet.
    fn tracks_request(&self) -> (r: KeyOutcome)
        ensures
            r == match needs_tracks(*self) {
                Some(p) => KeyOutcome::Send(Action::GetPlaylistTracks(p.id)),
                None => KeyOutcome::Nothing,
            },
    {
        match &self.playlist {
            Some(list) => {
                if self.selected_playlist_index < list.len() {
                    let p = &list[self.selected_playlist_index];
                    if self.music_list.contains_key(p.id.as_str()) {
                        KeyOutcome::Nothing
                    } else {
                        KeyOutcome::Send(Action::GetPlaylistTracks(p.id.clone()))
                    }
                } else {
                    KeyOutcome::Nothing
                }
            },
            None => KeyOutcome::Nothing,
        }
    }

    /// Handles a key press: moves the focus or a selection as `after_key`
    /// says and returns what the press asks of the program
    /// (`key_outcome_is`).
    pub fn handle_key(&mut self, key: Key) -> (r: KeyOutcome)
        ensures
            *final(self) == after_key(*old(self), key),
            key_outcome_is(*old(self), key, r),
            (key == Key::Up || key == Key::Down) && old(self).focus == Focus::Playlist ==> up_down_step(
                key,
                old(self).selected_playlist_index,
                opt_len(old(self).playlist),
                final(self).selected_playlist_index,
            ),
            (key == Key::Up || key == Key::Down) && old(self).focus == Focus::MusicList ==> up_down_step(
                key,
                old(self).selected_music_index,
                music_len(*old(self)),
                final(self).selected_music_index,
            ),
            (key == Key::Up || key == Key::Down) && (old(self).focus == Focus::Search || old(self).focus
                == Focus::Devices) ==> *final(self) == *old(self),
            key == Key::Enter && old(self).focus == Focus::Devices && old(self).available_devices is Some
                && old(self).selected_device_index < old(self).available_devices->0@.len() ==> r
                == KeyOutcome::Send(
                Action::ChangeDevice(
                    old(self).available_devices->0@[old(self).selected_device_index as int].id,
                ),
            ),
    {
        match key {
            Key::Char(c) => {
                if c == 'q' {
                    KeyOutcome::Quit
                } else if c == 'a' {
                    KeyOutcome::Send(Action::Authenticate)
                } else if c == 'c' {
                    match &self.auth_url {
                        Some(url) => KeyOutcome::CopyToClipboard(url.clone()),
                        None => KeyOutcome::Nothing,
                    }
                } else if c == ' ' {
                    let uri = if self.focus == Focus::MusicList {
                        self.selected_uri()
                    } else {
                        None
                    };
                    match uri {
                        Some(u) => KeyOutcome::Send(Action::PlayTrack(u)),
                        None => if self.is_playing {
                            KeyOutcome::Send(Action::Pause)
                        } else {
                            KeyOutcome::Send(Action::Play)
                        },
                    }
                } else {
                    KeyOutcome::Nothing
                }
            },
            Key::Up => {
                match self.focus {
                    Focus::Playlist => {
                        self.search_results = None;
                        if self.selected_playlist_index > 0 {
                            self.selected_playlist_index = self.selected_playlist_index - 1;
                            self.tracks_request()
                        } else {
                            KeyOutcome::Nothing
                        }
                    },
                    Focus::MusicList => {
                        if self.selected_music_index > 0 {
                            self.selected_music_index = self.selected_music_index - 1;
                        }
                        KeyOutcome::Nothing
                    },
                    _ => KeyOutcome::Nothing,
                }
            },
            Key::Down => {
                match self.focus {
                    Focus::Playlist => {
                        self.search_results = None;
                        let len = list_len(&self.playlist);
                        let before = self.selected_playlist_index;
                        self.selected_playlist_index = step_down_exec(before, len);
                        if self.selected_playlist_index != before {
                            self.tracks_request()
                        } else {
                            KeyOutcome::Nothing
                        }
                    },
                    Focus::MusicList => {
                        let len = self.music_count();
                        self.selected_music_index = step_down_exec(self.selected_music_index, len);
                        KeyOutcome::Nothing
                    },
                    _ => KeyOutcome::Nothing,
                }
            },
            Key::Tab => {
                self.focus = match self.focus {
                    Focus::Playlist => Focus::MusicList,
                    Focus::MusicList => Focus::Search,
                    Focus::Search => Focus::Devices,
                    Focus::Devices => Focus::Playlist,
                };
                KeyOutcome::Nothing
            },
            Key::Left => {
                if self.focus == Focus::Devices {
                    if self.selected_device_index > 0 {
                        self.selected_device_index = self.selected_device_index - 1;
                    }
                    KeyOutcome::Nothing
                } else {
                    KeyOutcome::Send(Action::PreviousTrack)
                }
            },
            Key::Right => {
                if self.focus == Focus::Devices {
                    let len = list_len(&self.available_devices);
                    self.selected_device_index = step_down_exec(self.selected_device_index, len);
                    KeyOutcome::Nothing
                } else {
                    KeyOutcome::Send(Action::NextTrack)
                }
            },
            Key::Enter => {
                if self.focus == Focus::Devices {
                    match &self.available_devices {
                        Some(devices) => {
                            if self.selected_device_index < devices.len() {
                                KeyOutcome::Send(
                                    Action::ChangeDevice(devices[self.selected_device_index].id.clone()),
                                )
                            } else {
                                KeyOutcome::Nothing
                            }
                        },
                        None => KeyOutcome::Nothing,
                    }
                } else {
                    KeyOutcome::Nothing
                }
            },
            Key::Other => KeyOutcome::Nothing,
        }
    }

    /// Applies an update from the Spotify worker and returns the actions to
    /// send back. A successful authentication asks for the profile, the
    /// playlists, the liked songs, the current track and the devices; track
    /// information asks for the current track again and devices for the
    /// devices again, so that both are kept fresh; new playlists ask for the
    /// tracks of the selected one unless they are loaded. The tracks of a
    /// playlist are kept under its id. An error message is shown and cleared
    /// in the same step, so none remains afterwards.
    pub fn apply_update(&mut self, update: StateUpdateEnum) -> (actions: Vec<Action>)
        ensures
            device_selection_ok(*old(self)) ==> device_selection_ok(*final(self)),
            match update {
                StateUpdateEnum::AuthStatus(a) => {
                    &&& *final(self) == (AppState { auth_state: a, ..*old(self) })
                    &&& actions@ == if a is Authenticated {
                        post_auth_actions()
                    } else {
                        Seq::empty()
                    }
                },
                StateUpdateEnum::TrackInfo(t) => {
                    &&& *final(self) == (AppState {
                        current_track_info: Some(t),
                        is_playing: true,
                        ..*old(self)
                    })
                    &&& actions@ == seq![Action::GetCurrentTrack]
                },
                StateUpdateEnum::PlaybackStatus(b) => {
                    &&& *final(self) == (AppState { is_playing: b, ..*old(self) })
                    &&& actions@.len() == 0
                },
                StateUpdateEnum::Volume(v) => {
                    &&& *final(self) == (AppState { volume: Some(v), ..*old(self) })
                    &&& actions@.len() == 0
                },
                StateUpdateEnum::Devices(d) => {
                    &&& *final(self) == (AppState {
                        error_message: None,
                        selected_device_index: clamp_index(old(self).selected_device_index, d@.len()),
                        available_devices: Some(d),
                        ..*old(self)
                    })
                    &&& actions@ == seq![Action::GetDevices]
                },
                StateUpdateEnum::Error(_) => {
                    &&& *final(self) == (AppState { error_message: None, ..*old(self) })
                    &&& actions@.len() == 0
                },
                StateUpdateEnum::CopyUrl(url) => {
                    &&& *final(self) == (AppState { auth_url: Some(url), ..*old(self) })
                    &&& actions@.len() == 0
                },
                StateUpdateEnum::Playlists(p) => {
                    &&& *final(self) == (AppState { error_message: None, playlist: Some(p), ..*old(self) })
                    &&& actions@ == match needs_tracks(*final(self)) {
                        Some(q) => seq![Action::GetPlaylistTracks(q.id)],
                        None => Seq::empty(),
                    }
                },
                StateUpdateEnum::TrackList(id, m) => {
                    &&& *final(self) == (AppState {
                        error_message: None,
                        music_list: final(self).music_list,
                        ..*old(self)
                    })
                    &&& final(self).music_list@ == old(self).music_list@.insert(id@, m)
                    &&& actions@.len() == 0
                },
                StateUpdateEnum::SearchResults(t) => {
                    &&& *final(self) == (AppState {
                        error_message: None,
                        search_results: Some(t),
                        ..*old(self)
                    })
                    &&& actions@.len() == 0
                },
                StateUpdateEnum::UserProfile(p) => {
                    &&& *final(self) == (AppState {
                        error_message: None,
                        user_profile: Some(p),
                        ..*old(self)
                    })
                    &&& actions@.len() == 0
                },
            },
    {
        let mut actions: Vec<Action> = Vec::new();
        match update {
            StateUpdateEnum::AuthStatus(auth_state) => {
                if let AuthState::Authenticated = auth_state {
                    actions.push(Action::GetProfile);
                    actions.push(Action::GetPlaylists);
                    actions.push(Action::GetLikedSongs);
                    actions.push(Action::GetCurrentTrack);
                    actions.push(Action::GetDevices);
                }
                self.auth_state = auth_state;
            },
            StateUpdateEnum::TrackInfo(track) => {
                self.current_track_info = Some(track);
                self.is_playing = true;
                actions.push(Action::GetCurrentTrack);
            },
            StateUpdateEnum::PlaybackStatus(is_playing) => {
                self.is_playing = is_playing;
            },
            StateUpdateEnum::Volume(volume) => {
                self.volume = Some(volume);
            },
            StateUpdateEnum::Devices(devices) => {
                self.error_message = None;
                let len = devices.len();
                self.available_devices = Some(devices);
                if len == 0 {
                    self.selected_device_index = 0;
                } else if self.selected_device_index >= len {
                    self.selected_device_index = len - 1;
                }
                actions.push(Action::GetDevices);
            },
            StateUpdateEnum::Error(msg) => {
                self.error_message = Some(msg);
                self.error_message = None;
            },
            StateUpdateEnum::CopyUrl(url) => {
                self.auth_url = Some(url);
            },
            StateUpdateEnum::Playlists(playlists) => {
                self.error_message = None;
                self.playlist = Some(playlists);
                match self.tracks_request() {
                    KeyOutcome::Send(a) => actions.push(a),
                    _ => {},
                }
            },
            StateUpdateEnum::TrackList(id, tracks) => {
                self.error_message = None;
                self.music_list.insert(id, tracks);
            },
            StateUpdateEnum::SearchResults(tracks) => {
                self.error_message = None;
                self.search_results = Some(tracks);
            },
            StateUpdateEnum::UserProfile(profile) => {
                self.error_message = None;
                self.user_profile = Some(profile);
            },
        }
        actions
    }
}

/// Four presses of Tab give the focus back to the panel that had it, and
/// change nothing else.
pub proof fn lemma_tab_cycles(s: AppState)
    ensures
        after_key(after_key(after_key(after_key(s, Key::Tab), Key::Tab), Key::Tab), Key::Tab) == s,
{
}

/// No key press changes anything but the focus, the three selections and
/// (by moving through the playlists) whether search results are shown: what
/// is loaded, the authentication, the playback flag and the counter stay.
pub proof fn lemma_keys_keep_content(s: AppState, key: Key)
    ensures
        ({
            let t = after_key(s, key);
            t == (AppState {
                focus: t.focus,
                selected_playlist_index: t.selected_playlist_index,
                selected_music_index: t.selected_music_index,
                selected_device_index: t.selected_device_index,
                search_results: t.search_results,
                ..s
            }) && (t.search_results == s.search_results || t.search_results is None)
        }),
{
}

/// Key presses keep every selection inside its list: a selection that points
/// at an element still points at one after any key. (Moving through the
/// playlists changes which tracks are shown, so for the track selection this
/// holds of every other key.)
pub proof fn lemma_selection_stays_in_list(s: AppState, key: Key)
    ensures
        s.selected_playlist_index < opt_len(s.playlist) ==> after_key(s, key).selected_playlist_index < opt_len(
            after_key(s, key).playlist,
        ),
        !(s.focus == Focus::Playlist && (key == Key::Up || key == Key::Down)) ==> (s.selected_music_index
            < music_len(s) ==> after_key(s, key).selected_music_index < music_len(after_key(s, key))),
        s.selected_device_index < opt_len(s.available_devices) ==> after_key(s, key).selected_device_index
            < opt_len(after_key(s, key).available_devices),
{
}

/// In a list, Up undoes Down and Down undoes Up, away from the ends (in the
/// playlist panel, up to leaving the search results).
pub proof fn lemma_up_down_inverse(s: AppState)
    requires
        opt_len(s.playlist) <= usize::MAX,
        music_len(s) <= usize::MAX,
        opt_len(s.available_devices) <= usize::MAX,
    ensures
        s.focus == Focus::Playlist && s.selected_playlist_index + 1 < opt_len(s.playlist) ==> after_key(
            after_key(s, Key::Down),
            Key::Up,
        ) == (AppState { search_results: None, ..s }),
        s.focus == Focus::Playlist && 0 < s.selected_playlist_index < opt_len(s.playlist) ==> after_key(
            after_key(s, Key::Up),
            Key::Down,
        ) == (AppState { search_results: None, ..s }),
        s.focus == Focus::MusicList && s.selected_music_index + 1 < music_len(s) ==> after_key(
            after_key(s, Key::Down),
            Key::Up,
        ) == s,
        s.focus == Focus::MusicList && 0 < s.selected_music_index < music_len(s) ==> after_key(
            after_key(s, Key::Up),
            Key::Down,
        ) == s,
        s.focus == Focus::Devices && s.selected_device_index + 1 < opt_len(s.available_devices) ==> after_key(
            after_key(s, Key::Right),
            Key::Left,
        ) == s,
        s.focus == Focus::Devices && 0 < s.selected_device_index < opt_len(s.available_devices) ==> after_key(
            after_key(s, Key::Left),
            Key::Right,
        ) == s,
{
}

/// Up never moves below the first element; Down never moves past the last.
pub proof fn lemma_steps_bounded(i: usize, len: nat)
    requires
        len <= usize::MAX,
    ensures
        step_up(i) <= i,
        i <= step_down(i, len),
        i < len ==> step_down(i, len) < len,
        step_down(i, len) <= i + 1,
        i >= step_up(i) >= (if i > 0 { i - 1 } else { 0 }),
{
}

/// After a new list of devices the selected device is inside the list, and a
/// selection that was inside the list stays where it was.
pub proof fn lemma_device_selection_clamped(i: usize, len: nat)
    requires
        len <= usize::MAX,
    ensures
        len > 0 ==> clamp_index(i, len) < len,
        len == 0 ==> clamp_index(i, len) == 0,
        i < len ==> clamp_index(i, len) == i,
{
}

/// Every key press keeps the selected device one of the devices (or 0 when
/// there are none); together with `apply_update`, which keeps it too, this
/// holds in every state reached from `AppState::new`.
pub proof fn lemma_device_selection_kept_by_keys(s: AppState, key: Key)
    requires
        opt_len(s.available_devices) <= usize::MAX,
        device_selection_ok(s),
    ensures
        device_selection_ok(after_key(s, key)),
{
}

/// Left and Right skip to the previous and the next track, except in the
/// devices panel, where they only move the selection.
pub proof fn lemma_arrows_skip_tracks(s: AppState, left: KeyOutcome, right: KeyOutcome)
    requires
        key_outcome_is(s, Key::Left, left),
        key_outcome_is(s, Key::Right, right),
    ensures
        s.focus != Focus::Devices ==> left == KeyOutcome::Send(Action::PreviousTrack) && right
            == KeyOutcome::Send(Action::NextTrack),
        s.focus == Focus::Devices ==> left == KeyOutcome::Nothing && right == KeyOutcome::Nothing,
{
}

/// Enter in the devices panel switches playback to the device the selection
/// points at, and asks for nothing when the selection points at none or
/// another panel has the focus.
pub proof fn lemma_enter_switches_to_selected_device(s: AppState, r: KeyOutcome)
    requires
        key_outcome_is(s, Key::Enter, r),
    ensures
        s.focus == Focus::Devices && s.available_devices is Some && s.selected_device_index
            < s.available_devices->0@.len() ==> r == KeyOutcome::Send(
            Action::ChangeDevice(s.available_devices->0@[s.selected_device_index as int].id),
        ),
        s.focus != Focus::Devices ==> r == KeyOutcome::Nothing,
        s.focus == Focus::Devices && s.selected_device_index >= opt_len(s.available_devices) ==> r
            == KeyOutcome::Nothing,
{
}

/// Space plays the selected track when the music list has the focus and a
/// playlist track is selected; anywhere else it pauses exactly when something is
/// playing and plays otherwise.
pub proof fn lemma_space(s: AppState, r: KeyOutcome)
    requires
        key_outcome_is(s, Key::Char(' '), r),
    ensures
        s.focus == Focus::MusicList && selected_track_uri(s) is Some ==> (r matches KeyOutcome::Send(
            Action::PlayTrack(u),
        ) && u@ == shown_entries(s)[s.selected_music_index as int].1.uri),
        !(s.focus == Focus::MusicList && selected_track_uri(s) is Some) ==> r == KeyOutcome::Send(
            if s.is_playing {
                Action::Pause
            } else {
                Action::Play
            },
        ),
{
}

/// Moving through the playlists asks for the tracks of a playlist only when
/// they are not loaded: a playlist whose tracks are kept is never fetched
/// again, and one whose tracks are missing is fetched when it is moved to.
pub proof fn lemma_tracks_fetched_once(s: AppState, key: Key, r: KeyOutcome)
    requires
        key == Key::Up || key == Key::Down,
        s.focus == Focus::Playlist,
        key_outcome_is(s, key, r),
    ensures
        selected_playlist(after_key(s, key)) matches Some(p) && s.music_list@.contains_key(p.id@) ==> r
            == KeyOutcome::Nothing,
        after_key(s, key).selected_playlist_index != s.selected_playlist_index && selected_playlist(
            after_key(s, key),
        ) is Some && !s.music_list@.contains_key(selected_playlist(after_key(s, key))->0.id@) ==> r
            == KeyOutcome::Send(Action::GetPlaylistTracks(selected_playlist(after_key(s, key))->0.id)),
{
}

/// Tracks loaded for the selected playlist are the playlist tracks the music
/// list panel shows: after the tracks `m` of the selected playlist are kept
/// under its id, `shown_tracks` is `m`.
pub proof fn lemma_loaded_tracks_shown(s: AppState, t: AppState, m: MusicList)
    requires
        selected_playlist(s) is Some,
        t.playlist == s.playlist,
        t.selected_playlist_index == s.selected_playlist_index,
        t.music_list@ == s.music_list@.insert(selected_playlist(s)->0.id@, m),
    ensures
        shown_tracks(t) == Some(m),
{
}

} // verus!
