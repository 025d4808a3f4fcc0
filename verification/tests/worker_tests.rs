use indexmap::IndexMap;
use sporcli::app_state::{AppState, Focus};
use sporcli::events::message::{Action, AuthState, Device, MusicList, Playlist, StateUpdateEnum, Track, TrackItem};
use sporcli::spotify::client::{ClientError, HttpStatus};
use sporcli::text::decimal_string;
use sporcli::worker::spotify_worker::{
    plan, report_after_skip, report_change_device, report_current_track, report_devices,
    report_devices_after_change, report_playback, report_playlists, report_profile, report_search,
    report_tracks, ApiCall, Playback, WorkerStep,
};
use sporcli::worker::ui::{
    authenticating_lines, devices_panel_lines, error_banner, panel_border, Border, music_list_panel_lines, player_commands, player_controls,
    playlist_panel_lines, progress_bar, screen, search_box_line, sign_in_lines, spinner_text,
    track_info_panel_lines, LineStyle, Screen,
};

fn music(names: &[(&str, &str, &str)]) -> MusicList {
    let mut items = IndexMap::new();
    for (id, name, artist) in names {
        items.insert(
            id.to_string(),
            TrackItem {
                id: id.to_string(),
                name: name.to_string(),
                artist: artist.to_string(),
                album: "Album".to_string(),
                duration_ms: 1,
                uri: format!("spotify:track:{}", id),
            },
        );
    }
    MusicList { total: items.len(), items, next: None }
}

fn track(name: &str) -> Track {
    Track {
        name: name.to_string(),
        artist: "Artist".to_string(),
        album: "Album".to_string(),
        duration_ms: 200,
        progress_ms: 50,
    }
}

fn api_error() -> ClientError {
    ClientError::Api {
        status: HttpStatus { code: 500, reason: Some("Internal Server Error".to_string()) },
        endpoint: "/v1/me/player".to_string(),
        body: "oops".to_string(),
    }
}

fn error_text(u: &StateUpdateEnum) -> String {
    match u {
        StateUpdateEnum::Error(m) => m.clone(),
        other => panic!("not an error: {:?}", other),
    }
}

#[test]
fn decimal_strings() {
    assert_eq!(decimal_string(0), "0");
    assert_eq!(decimal_string(404), "404");
    assert_eq!(decimal_string(u64::MAX), u64::MAX.to_string());
}

#[test]
fn plan_maps_actions_to_calls() {
    assert!(matches!(plan(Action::Authenticate), WorkerStep::Authenticate));
    assert!(matches!(plan(Action::Quit), WorkerStep::Stop));
    assert!(matches!(plan(Action::NextTrack), WorkerStep::Call(ApiCall::SkipNext)));
    assert!(matches!(plan(Action::PreviousTrack), WorkerStep::Call(ApiCall::SkipPrevious)));
    assert!(matches!(plan(Action::GetLikedSongs), WorkerStep::Ignore));
    assert!(matches!(plan(Action::VolumeUp), WorkerStep::Ignore));
    match plan(Action::Search("q".to_string())) {
        WorkerStep::Call(ApiCall::Search(q)) => assert_eq!(q, "q"),
        _ => panic!(),
    }
    match plan(Action::ChangeDevice("d".to_string())) {
        WorkerStep::Call(ApiCall::ChangeDevice(d)) => assert_eq!(d, "d"),
        _ => panic!(),
    }
    match plan(Action::GetPlaylistTracks("p1".to_string())) {
        WorkerStep::Call(ApiCall::PlaylistTracks(id)) => assert_eq!(id, "p1"),
        _ => panic!("playlist tracks are fetched"),
    }
    match plan(Action::PlayTrack("spotify:track:x".to_string())) {
        WorkerStep::Call(ApiCall::PlayTrack(uri)) => assert_eq!(uri, "spotify:track:x"),
        _ => panic!("a track is played"),
    }
    assert!(matches!(plan(Action::Play), WorkerStep::Call(ApiCall::Play)));
}

#[test]
fn worker_stops_at_quit_only() {
    let actions = vec![Action::GetDevices, Action::Play, Action::Quit, Action::GetProfile];
    let stop = actions.into_iter().position(|a| matches!(plan(a), WorkerStep::Stop));
    assert_eq!(stop, Some(2));
}

#[test]
fn playlist_tracks_reports() {
    let u = report_tracks("p1".to_string(), Ok(music(&[("t1", "One", "A")])));
    assert_eq!(u.len(), 1);
    match &u[0] {
        StateUpdateEnum::TrackList(id, m) => {
            assert_eq!(id, "p1");
            assert_eq!(m.len(), 1);
        }
        other => panic!("unexpected {:?}", other),
    }
    let u = report_tracks("p1".to_string(), Err(ClientError::NotAuthenticated));
    assert_eq!(u.len(), 1);
    assert_eq!(error_text(&u[0]), "Failed to get tracks: Not authenticated");
}

#[test]
fn playback_reports() {
    let (u, refresh) = report_playback(Playback::Play, Ok(()));
    assert!(matches!(u[..], [StateUpdateEnum::PlaybackStatus(true)]) && !refresh);
    let (u, refresh) = report_playback(Playback::Pause, Ok(()));
    assert!(matches!(u[..], [StateUpdateEnum::PlaybackStatus(false)]) && !refresh);
    let (u, refresh) = report_playback(Playback::Next, Ok(()));
    assert!(u.is_empty() && refresh);
    let (u, refresh) = report_playback(Playback::Previous, Err(ClientError::NotAuthenticated));
    assert_eq!(error_text(&u[0]), "Skip previous failed: Not authenticated");
    assert!(!refresh);
    let (u, _) = report_playback(Playback::Play, Err(api_error()));
    assert_eq!(error_text(&u[0]), "Play failed: API error 500 Internal Server Error for /v1/me/player: oops");
}

#[test]
fn after_skip_reports_track_then_playing() {
    let u = report_after_skip(Ok(Some(track("t"))));
    assert_eq!(u.len(), 2);
    assert!(matches!(&u[0], StateUpdateEnum::TrackInfo(t) if t.name == "t"));
    assert!(matches!(u[1], StateUpdateEnum::PlaybackStatus(true)));
    let u = report_after_skip(Err(ClientError::NotAuthenticated));
    assert!(matches!(u[..], [StateUpdateEnum::PlaybackStatus(true)]));
}

#[test]
fn current_track_reports() {
    let u = report_current_track(Ok(None));
    assert_eq!(error_text(&u[0]), "No track currently playing");
    assert!(matches!(u[1], StateUpdateEnum::PlaybackStatus(false)));
    let u = report_current_track(Err(ClientError::Json("EOF".to_string())));
    assert_eq!(error_text(&u[0]), "Failed to get track: EOF");
}

#[test]
fn other_reports() {
    assert_eq!(error_text(&report_devices(Err(ClientError::NotAuthenticated))[0]), "Failed to get devices: Not authenticated");
    let (u, refresh) = report_change_device(Ok(()));
    assert!(matches!(u[..], [StateUpdateEnum::PlaybackStatus(true)]) && refresh);
    let (u, refresh) = report_change_device(Err(ClientError::Transport("down".to_string())));
    assert_eq!(error_text(&u[0]), "Failed to change device: down");
    assert!(!refresh);
    assert!(report_devices_after_change(Err(ClientError::NotAuthenticated)).is_empty());
    assert_eq!(report_devices_after_change(Ok(vec![])).len(), 1);
    assert_eq!(error_text(&report_playlists(Err(ClientError::NotAuthenticated))[0]), "Failed to get playlists: Not authenticated");
    assert_eq!(error_text(&report_search(Err(ClientError::NotAuthenticated))[0]), "Search failed: Not authenticated");
    assert_eq!(error_text(&report_profile(Err(ClientError::NotAuthenticated))[0]), "Failed to get profile: Not authenticated");
    assert!(matches!(&report_search(Ok(vec![track("a")]))[0], StateUpdateEnum::SearchResults(t) if t.len() == 1));
}

#[test]
fn spinner_frames_advance_every_six_ticks() {
    assert_eq!(spinner_text(0, "Loading"), " ⠋ Loading...");
    assert_eq!(spinner_text(5, "Loading"), " ⠋ Loading...");
    assert_eq!(spinner_text(6, "Loading"), " ⠙ Loading...");
    assert_eq!(spinner_text(59, "x"), " ⠏ x...");
    assert_eq!(spinner_text(60, "x"), " ⠋ x...");
}

#[test]
fn progress_bar_cells() {
    assert_eq!(progress_bar(50, 100), format!("{}{}", "█".repeat(10), "░".repeat(10)));
    assert_eq!(progress_bar(0, 0), "░".repeat(20));
    assert_eq!(progress_bar(300, 100), "█".repeat(20));
    assert_eq!(progress_bar(99, 100), format!("{}{}", "█".repeat(19), "░".repeat(1)));
}

#[test]
fn playlist_panel_states() {
    let mut app = AppState::new();
    let l = playlist_panel_lines(&app);
    assert_eq!(l.len(), 1);
    assert_eq!(l[0].text, " No playlists");
    assert_eq!(l[0].style, LineStyle::Muted);
    app.auth_state = AuthState::Authenticated;
    let l = playlist_panel_lines(&app);
    assert_eq!(l[0].text, " ⠋ Loading playlists...");
    assert_eq!(l[0].style, LineStyle::Loading);
    app.playlist = Some(vec![
        Playlist { id: "1".to_string(), name: "Rock".to_string(), track_count: 0 },
        Playlist { id: "2".to_string(), name: "Jazz".to_string(), track_count: 0 },
    ]);
    app.selected_playlist_index = 1;
    let l = playlist_panel_lines(&app);
    assert_eq!(l[0].text, "   Rock");
    assert_eq!(l[1].text, " ▶ Jazz");
    assert_eq!(l[1].style, LineStyle::Emphasis);
    app.playlist = Some(vec![]);
    assert_eq!(playlist_panel_lines(&app)[0].text, " No playlists");
}

#[test]
fn music_list_panel_states() {
    let mut app = AppState::new();
    assert_eq!(music_list_panel_lines(&app)[0].text, " No tracks");
    app.auth_state = AuthState::Authenticated;
    assert_eq!(music_list_panel_lines(&app)[0].text, " ⠋ Loading tracks...");
    app.playlist = Some(vec![Playlist { id: "p".to_string(), name: "P".to_string(), track_count: 2 }]);
    assert_eq!(music_list_panel_lines(&app)[0].text, " ⠋ Loading tracks...");
    app.apply_update(StateUpdateEnum::TrackList("p".to_string(), music(&[("1", "A", "B"), ("2", "C", "D")])));
    let l = music_list_panel_lines(&app);
    assert_eq!(l.len(), 2);
    assert_eq!(l[0].text, " ▶ A - B");
    assert_eq!(l[0].style, LineStyle::Emphasis);
    assert_eq!(l[1].text, "   C - D");
    assert_eq!(l[1].style, LineStyle::Normal);
    app.apply_update(StateUpdateEnum::TrackList("p".to_string(), music(&[])));
    assert_eq!(music_list_panel_lines(&app)[0].text, " No tracks");
}

#[test]
fn track_info_panel_states() {
    let mut app = AppState::new();
    assert_eq!(track_info_panel_lines(&app)[0].text, " Nothing playing");
    app.auth_state = AuthState::Authenticated;
    assert_eq!(track_info_panel_lines(&app)[0].text, " ⠋ Loading...");
    app.current_track_info = Some(track("Song"));
    let l = track_info_panel_lines(&app);
    assert_eq!(l.len(), 5);
    assert_eq!(l[0].text, " ♪  Song");
    assert_eq!(l[1].text, "    Artist");
    assert_eq!(l[2].text, "    Album");
    assert_eq!(l[3].text, "");
    assert_eq!(l[4].text, format!("  {}{}", "█".repeat(5), "░".repeat(15)));
}

#[test]
fn small_widgets() {
    let mut app = AppState::new();
    assert_eq!(search_box_line(&app).text, "Search...");
    app.search = Some("abba".to_string());
    assert_eq!(search_box_line(&app).text, "abba");
    assert_eq!(player_controls(&app), vec!["⏪ Previous", "⏸ Play/Pause", "⏩ Next"]);
    app.is_playing = true;
    assert_eq!(player_controls(&app), vec!["⏪ Previous", "▶ Play/Pause", "⏩ Next"]);
    let c: Vec<(String, String)> = player_commands().into_iter().map(|c| (c.key, c.label)).collect();
    assert_eq!(
        c,
        vec![
            (" [←/→] ".to_string(), "Prev/Next  ".to_string()),
            (" [space] ".to_string(), "Play/Pause  ".to_string()),
            (" [q] ".to_string(), "Quit".to_string()),
        ]
    );
    assert!(error_banner(&app).is_none());
    app.error_message = Some("boom".to_string());
    let b = error_banner(&app).unwrap();
    assert_eq!((b.title.as_str(), b.mark.as_str(), b.message.as_str()), (" Error ", " ⚠ ", "boom"));
}

#[test]
fn screens_and_fixed_lines() {
    assert!(matches!(screen(&AuthState::Authenticated), Screen::Player));
    match screen(&AuthState::NotAuthenticated) {
        Screen::Page { title, lines, commands } => {
            assert_eq!(title, "AuthPage");
            assert_eq!(lines.len(), 3);
            assert_eq!(lines[2].text, "Auth Status: NotAuthenticated");
            assert_eq!(lines[2].style, LineStyle::Alert);
            let keys: Vec<(String, String)> = commands.into_iter().map(|c| (c.key, c.label)).collect();
            assert_eq!(keys, vec![(" [a] ".to_string(), "Authenticate  ".to_string()), (" [q] ".to_string(), "Quit".to_string())]);
        }
        _ => panic!("the sign-in page"),
    }
    match screen(&AuthState::Authenticating { url: "u".to_string() }) {
        Screen::Page { title, lines, commands } => {
            assert_eq!(title, "Authenticating");
            assert_eq!(lines.len(), 9);
            let keys: Vec<(String, String)> = commands.into_iter().map(|c| (c.key, c.label)).collect();
            assert_eq!(keys, vec![(" [c] ".to_string(), "Copy URL  ".to_string()), (" [q] ".to_string(), "Quit".to_string())]);
        }
        _ => panic!("the waiting page"),
    }
    match screen(&AuthState::Error("bad".to_string())) {
        Screen::Failed { title, message } => {
            assert_eq!(title, " Error ");
            assert_eq!(message, "bad");
        }
        _ => panic!(),
    }
    let a = authenticating_lines();
    let texts: Vec<(&str, LineStyle)> = a.iter().map(|l| (l.text.as_str(), l.style)).collect();
    assert_eq!(
        texts,
        vec![
            ("", LineStyle::Plain),
            ("⏳ Waiting for authentication...", LineStyle::Notice),
            ("", LineStyle::Plain),
            ("╔══════════════════════════════╗", LineStyle::Frame),
            ("║  Press [c] to copy auth URL  ║", LineStyle::FrameText),
            ("║  Then paste it in browser    ║", LineStyle::Frame),
            ("╚══════════════════════════════╝", LineStyle::Frame),
            ("", LineStyle::Plain),
            ("URL ready to copy ✔", LineStyle::Muted),
        ]
    );
    let s = sign_in_lines();
    let texts: Vec<(&str, LineStyle)> = s.iter().map(|l| (l.text.as_str(), l.style)).collect();
    assert_eq!(texts, vec![("", LineStyle::Plain), ("", LineStyle::Plain), ("Auth Status: NotAuthenticated", LineStyle::Alert)]);
}

#[test]
fn devices_panel_marks_active_and_selected() {
    let mut app = AppState::new();
    assert_eq!(devices_panel_lines(&app)[0].text, " No devices");
    app.auth_state = AuthState::Authenticated;
    assert_eq!(devices_panel_lines(&app)[0].text, " ⠋ Loading devices...");
    let dev = |name: &str, active: bool| Device {
        id: name.to_string(),
        name: name.to_string(),
        is_active: active,
        device_type: "Computer".to_string(),
        volume_percent: None,
    };
    app.available_devices = Some(vec![dev("Laptop", true), dev("Phone", false)]);
    app.selected_device_index = 1;
    let l = devices_panel_lines(&app);
    assert_eq!(l[0].text, "   ● Laptop");
    assert_eq!(l[0].style, LineStyle::Normal);
    assert_eq!(l[1].text, " ▶ ○ Phone");
    assert_eq!(l[1].style, LineStyle::Emphasis);
}

#[test]
fn focused_panel_has_the_yellow_border() {
    let mut app = AppState::new();
    assert_eq!(panel_border(&app, Focus::Playlist), Border::Focused);
    assert_eq!(panel_border(&app, Focus::Devices), Border::Normal);
    app.focus = Focus::Search;
    assert_eq!(panel_border(&app, Focus::Search), Border::Focused);
    assert_eq!(panel_border(&app, Focus::Playlist), Border::Normal);
}

#[test]
fn music_list_panel_shows_search_results_first() {
    let mut app = AppState::new();
    app.playlist = Some(vec![Playlist { id: "p".to_string(), name: "P".to_string(), track_count: 1 }]);
    app.apply_update(StateUpdateEnum::TrackList("p".to_string(), music(&[("1", "A", "B")])));
    app.apply_update(StateUpdateEnum::SearchResults(vec![track("Found")]));
    let l = music_list_panel_lines(&app);
    assert_eq!(l.len(), 1);
    assert_eq!(l[0].text, " ▶ Found - Artist");
    app.apply_update(StateUpdateEnum::SearchResults(vec![]));
    assert_eq!(music_list_panel_lines(&app)[0].text, " No tracks");
}
