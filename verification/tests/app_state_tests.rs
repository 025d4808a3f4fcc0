use indexmap::IndexMap;
use sporcli::app_state::{AppState, Focus, Key, KeyOutcome};
use sporcli::events::message::{
    Action, AuthState, Device, MusicList, Playlist, StateUpdateEnum, Track, TrackItem,
};

fn device(id: &str) -> Device {
    Device {
        id: id.to_string(),
        name: format!("Device {}", id),
        is_active: false,
        device_type: "Computer".to_string(),
        volume_percent: None,
    }
}

fn playlist(name: &str) -> Playlist {
    Playlist { id: name.to_string(), name: name.to_string(), track_count: 1 }
}

fn track(name: &str, artist: &str) -> Track {
    Track {
        name: name.to_string(),
        artist: artist.to_string(),
        album: "Album".to_string(),
        duration_ms: 1000,
        progress_ms: 0,
    }
}

fn item(id: &str, name: &str, artist: &str) -> TrackItem {
    TrackItem {
        id: id.to_string(),
        name: name.to_string(),
        artist: artist.to_string(),
        album: "Album".to_string(),
        duration_ms: 1000,
        uri: format!("spotify:track:{}", id),
    }
}

fn music(items: Vec<TrackItem>) -> MusicList {
    let mut map = IndexMap::new();
    for it in items {
        map.insert(it.id.clone(), it);
    }
    let total = map.len();
    MusicList { items: map, total, next: None }
}

fn requested_tracks(o: KeyOutcome) -> Option<String> {
    match o {
        KeyOutcome::Send(Action::GetPlaylistTracks(id)) => Some(id),
        _ => None,
    }
}

#[test]
fn new_state_starts_signed_out_with_playlist_focus() {
    let app = AppState::new();
    assert_eq!(app.auth_state, AuthState::NotAuthenticated);
    assert_eq!(app.focus, Focus::Playlist);
    assert!(!app.is_playing);
    assert!(app.playlist.is_none());
    assert!(app.music_list.is_empty());
    assert!(app.search_results.is_none());
    assert_eq!(app.selected_playlist_index, 0);
    assert_eq!(app.selected_device_index, 0);
    assert_eq!(app.tick, 0);
}

#[test]
fn ticks_count_up_and_reset() {
    let mut app = AppState::new();
    app.on_tick();
    app.on_tick();
    assert_eq!(app.tick, 2);
    app.reset_tick();
    assert_eq!(app.tick, 0);
}

#[test]
fn tab_cycles_through_four_panels() {
    let mut app = AppState::new();
    let mut seen = vec![];
    for _ in 0..4 {
        app.handle_key(Key::Tab);
        seen.push(app.focus);
    }
    assert_eq!(seen, vec![Focus::MusicList, Focus::Search, Focus::Devices, Focus::Playlist]);
}

#[test]
fn down_and_up_stay_inside_the_playlist() {
    let mut app = AppState::new();
    app.playlist = Some(vec![playlist("a"), playlist("b"), playlist("c")]);
    for _ in 0..5 {
        app.handle_key(Key::Down);
    }
    assert_eq!(app.selected_playlist_index, 2);
    app.handle_key(Key::Up);
    assert_eq!(app.selected_playlist_index, 1);
    for _ in 0..5 {
        app.handle_key(Key::Up);
    }
    assert_eq!(app.selected_playlist_index, 0);
}

#[test]
fn down_on_empty_list_does_nothing() {
    let mut app = AppState::new();
    app.handle_key(Key::Down);
    assert_eq!(app.selected_playlist_index, 0);
    app.playlist = Some(vec![]);
    app.handle_key(Key::Down);
    assert_eq!(app.selected_playlist_index, 0);
}

#[test]
fn quit_and_authenticate_keys() {
    let mut app = AppState::new();
    assert!(matches!(app.handle_key(Key::Char('q')), KeyOutcome::Quit));
    assert!(matches!(app.handle_key(Key::Char('a')), KeyOutcome::Send(Action::Authenticate)));
    assert!(matches!(app.handle_key(Key::Char('x')), KeyOutcome::Nothing));
}

#[test]
fn copy_key_copies_only_a_known_url() {
    let mut app = AppState::new();
    assert!(matches!(app.handle_key(Key::Char('c')), KeyOutcome::Nothing));
    app.auth_url = Some("https://example.org/auth".to_string());
    match app.handle_key(Key::Char('c')) {
        KeyOutcome::CopyToClipboard(url) => assert_eq!(url, "https://example.org/auth"),
        _ => panic!("expected a copy"),
    }
}

#[test]
fn space_toggles_play_and_pause() {
    let mut app = AppState::new();
    assert!(matches!(app.handle_key(Key::Char(' ')), KeyOutcome::Send(Action::Play)));
    app.is_playing = true;
    assert!(matches!(app.handle_key(Key::Char(' ')), KeyOutcome::Send(Action::Pause)));
}

#[test]
fn left_right_skip_tracks_outside_devices_panel() {
    let mut app = AppState::new();
    assert!(matches!(app.handle_key(Key::Left), KeyOutcome::Send(Action::PreviousTrack)));
    assert!(matches!(app.handle_key(Key::Right), KeyOutcome::Send(Action::NextTrack)));
}

#[test]
fn devices_panel_navigation_and_enter() {
    let mut app = AppState::new();
    app.focus = Focus::Devices;
    app.available_devices = Some(vec![device("d0"), device("d1")]);
    assert!(matches!(app.handle_key(Key::Right), KeyOutcome::Nothing));
    assert_eq!(app.selected_device_index, 1);
    app.handle_key(Key::Right);
    assert_eq!(app.selected_device_index, 1);
    match app.handle_key(Key::Enter) {
        KeyOutcome::Send(Action::ChangeDevice(id)) => assert_eq!(id, "d1"),
        _ => panic!("expected a device change"),
    }
    app.handle_key(Key::Left);
    app.handle_key(Key::Left);
    assert_eq!(app.selected_device_index, 0);
}

#[test]
fn enter_outside_devices_panel_does_nothing() {
    let mut app = AppState::new();
    app.available_devices = Some(vec![device("d0")]);
    assert!(matches!(app.handle_key(Key::Enter), KeyOutcome::Nothing));
}

#[test]
fn authenticated_status_fetches_everything() {
    let mut app = AppState::new();
    let actions = app.apply_update(StateUpdateEnum::AuthStatus(AuthState::Authenticated));
    assert_eq!(app.auth_state, AuthState::Authenticated);
    let names: Vec<String> = actions.iter().map(|a| format!("{:?}", a)).collect();
    assert_eq!(names, vec!["GetProfile", "GetPlaylists", "GetLikedSongs", "GetCurrentTrack", "GetDevices"]);
}

#[test]
fn other_auth_status_fetches_nothing() {
    let mut app = AppState::new();
    let actions = app.apply_update(StateUpdateEnum::AuthStatus(AuthState::Authenticating {
        url: "u".to_string(),
    }));
    assert!(actions.is_empty());
    assert_eq!(app.auth_state, AuthState::Authenticating { url: "u".to_string() });
}

#[test]
fn track_info_marks_playing_and_polls_again() {
    let mut app = AppState::new();
    let actions = app.apply_update(StateUpdateEnum::TrackInfo(track("Song", "Band")));
    assert!(app.is_playing);
    assert_eq!(app.current_track_info.as_ref().unwrap().name, "Song");
    assert_eq!(actions.len(), 1);
    assert!(matches!(actions[0], Action::GetCurrentTrack));
}

#[test]
fn devices_update_clamps_selection() {
    let mut app = AppState::new();
    app.selected_device_index = 7;
    app.error_message = Some("old".to_string());
    let actions = app.apply_update(StateUpdateEnum::Devices(vec![device("a"), device("b")]));
    assert_eq!(app.selected_device_index, 1);
    assert!(app.error_message.is_none());
    assert!(matches!(actions[0], Action::GetDevices));
    app.apply_update(StateUpdateEnum::Devices(vec![]));
    assert_eq!(app.selected_device_index, 0);
}

#[test]
fn error_update_leaves_no_message() {
    let mut app = AppState::new();
    let actions = app.apply_update(StateUpdateEnum::Error("boom".to_string()));
    assert!(actions.is_empty());
    assert!(app.error_message.is_none());
}

#[test]
fn track_list_is_kept_under_its_playlist() {
    let mut app = AppState::new();
    app.error_message = Some("old".to_string());
    let actions = app.apply_update(StateUpdateEnum::TrackList(
        "p1".to_string(),
        music(vec![item("t1", "One", "A"), item("t2", "Two", "B")]),
    ));
    assert!(actions.is_empty());
    assert!(app.error_message.is_none());
    assert_eq!(app.music_list.len(), 1);
    assert_eq!(app.music_list.get("p1").unwrap().len(), 2);
    assert!(app.music_list.get("p2").is_none());
    app.apply_update(StateUpdateEnum::TrackList("p2".to_string(), music(vec![item("t3", "Three", "C")])));
    assert_eq!(app.music_list.len(), 2);
    assert_eq!(app.music_list.get("p1").unwrap().len(), 2);
}

#[test]
fn shown_tracks_follow_the_selected_playlist() {
    let mut app = AppState::new();
    app.playlist = Some(vec![playlist("a"), playlist("b")]);
    assert!(app.shown_music_list().is_none());
    app.apply_update(StateUpdateEnum::TrackList("b".to_string(), music(vec![item("t1", "One", "A")])));
    assert!(app.shown_music_list().is_none());
    app.handle_key(Key::Down);
    assert_eq!(app.shown_music_list().unwrap().len(), 1);
}

#[test]
fn moving_to_an_unloaded_playlist_requests_its_tracks() {
    let mut app = AppState::new();
    app.playlist = Some(vec![playlist("a"), playlist("b"), playlist("c")]);
    assert_eq!(requested_tracks(app.handle_key(Key::Down)), Some("b".to_string()));
    app.apply_update(StateUpdateEnum::TrackList("a".to_string(), music(vec![item("t1", "One", "A")])));
    assert!(matches!(app.handle_key(Key::Up), KeyOutcome::Nothing));
    assert_eq!(app.selected_playlist_index, 0);
    // at the top, Up moves nothing and asks for nothing
    assert!(matches!(app.handle_key(Key::Up), KeyOutcome::Nothing));
    assert_eq!(requested_tracks(app.handle_key(Key::Down)), Some("b".to_string()));
    assert_eq!(requested_tracks(app.handle_key(Key::Down)), Some("c".to_string()));
    // at the bottom, Down moves nothing and asks for nothing
    assert!(matches!(app.handle_key(Key::Down), KeyOutcome::Nothing));
}

#[test]
fn up_and_down_in_other_panels_request_nothing() {
    let mut app = AppState::new();
    app.playlist = Some(vec![playlist("a"), playlist("b")]);
    app.focus = Focus::MusicList;
    assert!(matches!(app.handle_key(Key::Down), KeyOutcome::Nothing));
    assert_eq!(app.selected_playlist_index, 0);
}

#[test]
fn new_playlists_request_the_tracks_of_the_selected_one() {
    let mut app = AppState::new();
    let actions = app.apply_update(StateUpdateEnum::Playlists(vec![playlist("a"), playlist("b")]));
    assert_eq!(actions.len(), 1);
    assert!(matches!(&actions[0], Action::GetPlaylistTracks(id) if id == "a"));
    app.apply_update(StateUpdateEnum::TrackList("a".to_string(), music(vec![])));
    let again = app.apply_update(StateUpdateEnum::Playlists(vec![playlist("a")]));
    assert!(again.is_empty());
    let none = app.apply_update(StateUpdateEnum::Playlists(vec![]));
    assert!(none.is_empty());
}

#[test]
fn space_in_music_list_plays_the_selected_track() {
    let mut app = AppState::new();
    app.playlist = Some(vec![playlist("a")]);
    app.apply_update(StateUpdateEnum::TrackList(
        "a".to_string(),
        music(vec![item("t1", "One", "A"), item("t2", "Two", "B")]),
    ));
    app.focus = Focus::MusicList;
    app.handle_key(Key::Down);
    assert_eq!(app.selected_music_index, 1);
    match app.handle_key(Key::Char(' ')) {
        KeyOutcome::Send(Action::PlayTrack(uri)) => assert_eq!(uri, "spotify:track:t2"),
        _ => panic!("expected the selected track to be played"),
    }
    app.handle_key(Key::Down);
    assert_eq!(app.selected_music_index, 1);
    // outside the music list Space toggles playback
    app.focus = Focus::Search;
    assert!(matches!(app.handle_key(Key::Char(' ')), KeyOutcome::Send(Action::Play)));
}

#[test]
fn space_in_music_list_without_tracks_toggles() {
    let mut app = AppState::new();
    app.focus = Focus::MusicList;
    app.is_playing = true;
    assert!(matches!(app.handle_key(Key::Char(' ')), KeyOutcome::Send(Action::Pause)));
}

#[test]
fn search_results_are_kept() {
    let mut app = AppState::new();
    app.error_message = Some("old".to_string());
    let actions = app.apply_update(StateUpdateEnum::SearchResults(vec![track("One", "A")]));
    assert!(actions.is_empty());
    assert!(app.error_message.is_none());
    assert_eq!(app.search_results.as_ref().unwrap()[0].name, "One");
}

#[test]
fn simple_updates_set_their_fields() {
    let mut app = AppState::new();
    app.apply_update(StateUpdateEnum::PlaybackStatus(true));
    assert!(app.is_playing);
    app.apply_update(StateUpdateEnum::Volume(40));
    assert_eq!(app.volume, Some(40));
    app.apply_update(StateUpdateEnum::CopyUrl("link".to_string()));
    assert_eq!(app.auth_url.as_deref(), Some("link"));
    app.apply_update(StateUpdateEnum::Playlists(vec![playlist("p")]));
    assert_eq!(app.playlist.as_ref().unwrap().len(), 1);
}

#[test]
fn keys_only_move_focus_and_selection() {
    let mut app = AppState::new();
    app.auth_state = AuthState::Authenticated;
    app.playlist = Some(vec![playlist("a"), playlist("b")]);
    app.apply_update(StateUpdateEnum::TrackList("a".to_string(), music(vec![item("t", "x", "y")])));
    app.is_playing = true;
    for key in [Key::Down, Key::Tab, Key::Down, Key::Up, Key::Tab, Key::Tab, Key::Right, Key::Left, Key::Enter, Key::Char('z')] {
        app.handle_key(key);
    }
    assert_eq!(app.auth_state, AuthState::Authenticated);
    assert_eq!(app.playlist.as_ref().unwrap().len(), 2);
    assert_eq!(app.music_list.len(), 1);
    assert!(app.is_playing);
    assert_eq!(app.selected_playlist_index, 1);
    assert_eq!(app.focus, Focus::Devices);
}

#[test]
fn device_selection_stays_valid_across_updates_and_keys() {
    let mut app = AppState::new();
    app.focus = Focus::Devices;
    app.apply_update(StateUpdateEnum::Devices(vec![device("a"), device("b"), device("c")]));
    app.handle_key(Key::Right);
    app.handle_key(Key::Right);
    app.handle_key(Key::Right);
    assert_eq!(app.selected_device_index, 2);
    app.apply_update(StateUpdateEnum::Devices(vec![device("a")]));
    assert_eq!(app.selected_device_index, 0);
}

#[test]
fn playlist_update_does_not_clamp_selection() {
    let mut app = AppState::new();
    app.playlist = Some(vec![playlist("a"), playlist("b"), playlist("c")]);
    app.handle_key(Key::Down);
    app.handle_key(Key::Down);
    app.apply_update(StateUpdateEnum::Playlists(vec![playlist("only")]));
    assert_eq!(app.selected_playlist_index, 2);
}

#[test]
fn search_results_show_until_the_playlists_are_browsed() {
    let mut app = AppState::new();
    app.playlist = Some(vec![playlist("a"), playlist("b")]);
    app.apply_update(StateUpdateEnum::TrackList("a".to_string(), music(vec![item("t1", "One", "A")])));
    app.apply_update(StateUpdateEnum::SearchResults(vec![track("X", "Y"), track("Z", "W")]));
    app.focus = Focus::MusicList;
    app.handle_key(Key::Down);
    assert_eq!(app.selected_music_index, 1);
    // search results have no uri to play: Space toggles
    assert!(matches!(app.handle_key(Key::Char(' ')), KeyOutcome::Send(Action::Play)));
    app.focus = Focus::Playlist;
    app.handle_key(Key::Up);
    assert!(app.search_results.is_none());
}

#[test]
fn up_down_in_search_and_devices_change_nothing() {
    let mut app = AppState::new();
    app.playlist = Some(vec![playlist("a"), playlist("b")]);
    app.selected_playlist_index = 1;
    for f in [Focus::Search, Focus::Devices] {
        app.focus = f;
        assert!(matches!(app.handle_key(Key::Up), KeyOutcome::Nothing));
        assert!(matches!(app.handle_key(Key::Down), KeyOutcome::Nothing));
        assert_eq!((app.selected_playlist_index, app.selected_music_index, app.selected_device_index), (1, 0, 0));
    }
}
