use sporcli::json::{JsonNumber, JsonValue};
use sporcli::spotify::client::{
    current_track_from_document, devices_from_document, nothing_playing, playlists_from_document,
    profile_from_document, read_available_devices, read_current_track, read_me, read_playlists,
    read_recently_played, read_search, read_tracks, recently_played_from_document,
    search_from_document, track_from_recent, tracks_from_document, ClientError, HttpMethod,
    HttpStatus, RequestBody, SpotifyClient,
};
use sporcli::events::message::Track;

fn s(x: &str) -> JsonValue {
    JsonValue::Str(x.to_string())
}

fn n(x: u64) -> JsonValue {
    JsonValue::Number(JsonNumber::PosInt(x))
}

fn obj(members: Vec<(&str, JsonValue)>) -> JsonValue {
    JsonValue::Object(members.into_iter().map(|(k, v)| (k.to_string(), v)).collect())
}

fn arr(items: Vec<JsonValue>) -> JsonValue {
    JsonValue::Array(items)
}

fn ok() -> HttpStatus {
    HttpStatus { code: 200, reason: Some("OK".to_string()) }
}

fn track_json(name: &str, artist: &str) -> JsonValue {
    obj(vec![
        ("name", s(name)),
        ("artists", arr(vec![obj(vec![("name", s(artist))])])),
        ("album", obj(vec![("name", s("Album"))])),
        ("duration_ms", n(1000)),
    ])
}

fn signed_in() -> SpotifyClient {
    let mut c = SpotifyClient::new("cid");
    c.set_token("tok".to_string(), "ref".to_string(), 100);
    c
}

#[test]
fn new_client_has_app_id_and_no_token() {
    let c = SpotifyClient::new("970f2de2fa8141108ea3fbd3c9498985");
    assert_eq!(c.client_id, "970f2de2fa8141108ea3fbd3c9498985");
    assert_eq!(SpotifyClient::new("other-app").client_id, "other-app");
    assert!(c.access_token.is_none());
    assert!(matches!(c.token(), Err(ClientError::NotAuthenticated)));
}

#[test]
fn set_token_stores_credentials() {
    let c = signed_in();
    assert_eq!(c.token().unwrap(), "tok");
    assert_eq!(c.refresh_token.as_deref(), Some("ref"));
    assert_eq!(c.expires_at, Some(100));
}

#[test]
fn requests_need_a_token() {
    let c = SpotifyClient::new("cid");
    let e = c.pause().unwrap_err();
    assert_eq!(e.message(), "Not authenticated");
}

#[test]
fn playback_requests() {
    let c = signed_in();
    let r = c.play("spotify:track:x".to_string()).unwrap();
    assert_eq!(r.method, HttpMethod::Put);
    assert_eq!(r.url, "https://api.spotify.com/v1/me/player/play");
    assert_eq!(r.bearer, "tok");
    match r.body {
        RequestBody::PlayUris { uris } => assert_eq!(uris, vec!["spotify:track:x".to_string()]),
        _ => panic!("the track uri is sent"),
    }
    let r = c.resume().unwrap();
    assert_eq!(r.url, "https://api.spotify.com/v1/me/player/play");
    assert!(matches!(r.body, RequestBody::Empty));
    assert_eq!(c.skip_next().unwrap().method, HttpMethod::Post);
    assert_eq!(c.skip_previous().unwrap().endpoint, "/v1/me/player/previous");
    assert_eq!(c.get_tracks("abc").unwrap().url, "https://api.spotify.com/v1/playlists/abc");
}

#[test]
fn change_devices_sends_transfer_body() {
    let c = signed_in();
    let r = c.change_devices("dev1").unwrap();
    assert_eq!(r.endpoint, "/v1/me/player");
    match r.body {
        RequestBody::TransferPlayback { device_ids, play } => {
            assert_eq!(device_ids, vec!["dev1".to_string()]);
            assert!(play);
        }
        _ => panic!("expected a transfer body"),
    }
}

#[test]
fn search_percent_encodes_the_query() {
    let c = signed_in();
    let r = c.search("a b&c~é").unwrap();
    assert_eq!(r.endpoint, "/v1/search?q=a%20b%26c~%C3%A9&type=track&limit=10");
}

#[test]
fn status_error_message_names_status_endpoint_and_body() {
    let st = HttpStatus { code: 404, reason: Some("Not Found".to_string()) };
    let e = SpotifyClient::handle_response_status(st, "/v1/me", "nope".to_string()).unwrap_err();
    assert_eq!(e.message(), "API error 404 Not Found for /v1/me: nope");
    let st = HttpStatus { code: 599, reason: None };
    let e = SpotifyClient::handle_response_status(st, "/x", String::new()).unwrap_err();
    assert_eq!(e.message(), "API error 599 <unknown status code> for /x: ");
    assert!(SpotifyClient::handle_response_status(ok(), "/x", String::new()).is_ok());
}

#[test]
fn current_track_reads_item_and_progress() {
    let doc = obj(vec![("progress_ms", n(250)), ("item", track_json("Song", "Band"))]);
    let t = current_track_from_document(Ok(doc)).unwrap().unwrap();
    assert_eq!(t.name, "Song");
    assert_eq!(t.artist, "Band");
    assert_eq!(t.album, "Album");
    assert_eq!(t.duration_ms, 1000);
    assert_eq!(t.progress_ms, 250);
}

#[test]
fn current_track_null_item_reads_unknowns() {
    let doc = obj(vec![("item", JsonValue::Null)]);
    let t = current_track_from_document(Ok(doc)).unwrap().unwrap();
    assert_eq!(t.name, "Unknown");
    assert_eq!(t.artist, "Unknown");
    assert_eq!(t.duration_ms, 0);
    assert_eq!(t.progress_ms, 0);
}

#[test]
fn current_track_without_item_is_none() {
    let doc = obj(vec![("progress_ms", n(3))]);
    assert!(current_track_from_document(Ok(doc)).unwrap().is_none());
}

#[test]
fn json_error_is_reported_after_status() {
    let e = current_track_from_document(Err("bad json".to_string())).unwrap_err();
    assert_eq!(e.message(), "bad json");
    let st = HttpStatus { code: 401, reason: Some("Unauthorized".to_string()) };
    let e = read_current_track(st, "/e", "{not json".to_string()).unwrap_err();
    assert_eq!(e.message(), "API error 401 Unauthorized for /e: {not json");
}

#[test]
fn reply_bodies_are_decoded_as_json() {
    let body = r#"{"progress_ms": 250, "item": {"name": "Song", "artists": [{"name": "Band"}], "album": {"name": "LP"}, "duration_ms": 1000}}"#;
    let t = read_current_track(ok(), "/e", body.to_string()).unwrap().unwrap();
    assert_eq!((t.name.as_str(), t.artist.as_str(), t.album.as_str()), ("Song", "Band", "LP"));
    assert_eq!((t.duration_ms, t.progress_ms), (1000, 250));
    let nothing = HttpStatus { code: 204, reason: Some("No Content".to_string()) };
    let e = read_current_track(nothing, "/e", String::new()).unwrap_err();
    assert!(matches!(e, ClientError::Json(_)));
    let e = read_current_track(ok(), "/e", "{not json".to_string()).unwrap_err();
    assert!(matches!(e, ClientError::Json(_)));
    assert!(e.message().starts_with("key must be a string"));
    let p = read_playlists(ok(), "/e", r#"{"items": [{"id": "p1", "name": "Mix", "tracks": {"total": 3}}]}"#.to_string()).unwrap();
    assert_eq!((p[0].id.as_str(), p[0].name.as_str(), p[0].track_count), ("p1", "Mix", 3));
    let d = read_available_devices(ok(), "/e", r#"{"devices": [{"id": "d", "volume_percent": -1, "is_active": true}]}"#.to_string()).unwrap();
    assert_eq!((d[0].id.as_str(), d[0].is_active, d[0].volume_percent), ("d", true, None));
    let t = read_search(ok(), "/e", r#"{"tracks": {"items": [{"name": "A", "duration_ms": 1.5}]}}"#.to_string()).unwrap();
    assert_eq!((t[0].name.as_str(), t[0].duration_ms), ("A", 0));
    let t = read_recently_played(ok(), "/e", r#"{"items": [{"track": {"name": "R"}}, {}]}"#.to_string()).unwrap();
    assert_eq!(t.len(), 1);
    let me = read_me(ok(), "/e", r#"{"id": "u", "display_name": null}"#.to_string()).unwrap();
    assert_eq!(me.id, "u");
    assert!(me.display_name.is_none());
    let m = read_tracks(ok(), "/e", r#"{"items": {"items": [{"item": {"id": "a", "uri": "spotify:track:a"}}], "total": 1}}"#.to_string()).unwrap();
    assert_eq!(m.len(), 1);
    assert_eq!(m.get_index(0).unwrap().1.uri, "spotify:track:a");
    let st = HttpStatus { code: 500, reason: None };
    assert!(matches!(read_tracks(st, "/e", String::new()), Err(ClientError::Api { .. })));
}

#[test]
fn nothing_playing_falls_back_to_recent_tracks() {
    assert!(nothing_playing(&HttpStatus { code: 204, reason: None }));
    assert!(!nothing_playing(&ok()));
    let t = Track {
        name: "x".to_string(),
        artist: "y".to_string(),
        album: "z".to_string(),
        duration_ms: 1,
        progress_ms: 0,
    };
    let r = track_from_recent(Ok(vec![t])).unwrap().unwrap();
    assert_eq!(r.name, "x");
    assert!(track_from_recent(Ok(vec![])).is_none());
    assert!(track_from_recent(Err(ClientError::NotAuthenticated)).unwrap().is_none());
}

#[test]
fn playlists_read_counts_from_items_then_tracks() {
    let doc = obj(vec![(
        "items",
        arr(vec![
            obj(vec![("id", s("p1")), ("name", s("Mix")), ("items", obj(vec![("total", n(7))]))]),
            obj(vec![("id", s("p2")), ("tracks", obj(vec![("total", n(3))]))]),
            obj(vec![]),
        ]),
    )]);
    let p = playlists_from_document(Ok(doc)).unwrap();
    assert_eq!(p.len(), 3);
    assert_eq!((p[0].id.as_str(), p[0].name.as_str(), p[0].track_count), ("p1", "Mix", 7));
    assert_eq!((p[1].name.as_str(), p[1].track_count), ("Unknown", 3));
    assert_eq!((p[2].id.as_str(), p[2].track_count), ("", 0));
}

#[test]
fn playlists_without_items_array_is_empty() {
    let p = playlists_from_document(Ok(obj(vec![("items", s("no"))]))).unwrap();
    assert!(p.is_empty());
}

#[test]
fn devices_read_with_defaults_and_volume_range() {
    let doc = obj(vec![(
        "devices",
        arr(vec![
            obj(vec![
                ("id", s("d1")),
                ("name", s("Phone")),
                ("is_active", JsonValue::Bool(true)),
                ("type", s("Smartphone")),
                ("volume_percent", n(55)),
            ]),
            obj(vec![("volume_percent", n(300))]),
            obj(vec![("volume_percent", JsonValue::Number(JsonNumber::NegInt(-1)))]),
        ]),
    )]);
    let d = devices_from_document(Ok(doc)).unwrap();
    assert_eq!(d.len(), 3);
    assert_eq!(d[0].name, "Phone");
    assert!(d[0].is_active);
    assert_eq!(d[0].volume_percent, Some(55));
    assert_eq!(d[1].name, "Unknown Device");
    assert_eq!(d[1].device_type, "Unknown");
    assert!(!d[1].is_active);
    assert_eq!(d[1].volume_percent, None);
    assert_eq!(d[2].volume_percent, None);
}

#[test]
fn search_reads_tracks_without_progress() {
    let doc = obj(vec![("tracks", obj(vec![("items", arr(vec![track_json("A", "B"), track_json("C", "D")]))]))]);
    let t = search_from_document(Ok(doc)).unwrap();
    assert_eq!(t.len(), 2);
    assert_eq!(t[1].name, "C");
    assert_eq!(t[1].artist, "D");
    assert_eq!(t[1].progress_ms, 0);
}

#[test]
fn recently_played_skips_entries_without_track() {
    let doc = obj(vec![(
        "items",
        arr(vec![
            obj(vec![("track", track_json("One", "X"))]),
            obj(vec![("played_at", s("now"))]),
            obj(vec![("track", track_json("Two", "Y"))]),
        ]),
    )]);
    let t = recently_played_from_document(Ok(doc)).unwrap();
    assert_eq!(t.len(), 2);
    assert_eq!(t[0].name, "One");
    assert_eq!(t[1].name, "Two");
}

#[test]
fn recently_played_forbidden_reads_as_empty() {
    let st = HttpStatus { code: 403, reason: Some("Forbidden".to_string()) };
    let t = read_recently_played(st, "/e", "denied".to_string()).unwrap();
    assert!(t.is_empty());
}

#[test]
fn profile_reads_id_name_image_and_uri() {
    let doc = obj(vec![
        ("id", s("u1")),
        ("display_name", s("Ann")),
        ("images", arr(vec![obj(vec![("url", s("http://img"))])])),
        ("uri", s("spotify:user:u1")),
        ("email", s("a@b")),
    ]);
    let p = profile_from_document(Ok(doc)).unwrap();
    assert_eq!(p.id, "u1");
    assert_eq!(p.display_name.as_deref(), Some("Ann"));
    assert_eq!(p.profile_image_url.as_deref(), Some("http://img"));
    assert_eq!(p.uri, "spotify:user:u1");
    assert!(p.email.is_none());
    assert_eq!(p.followers, 0);
}

#[test]
fn playlist_tracks_keyed_by_id_in_first_seen_order() {
    let item = |id: &str, name: &str| {
        obj(vec![(
            "item",
            obj(vec![("id", s(id)), ("name", s(name)), ("uri", s(&format!("spotify:track:{}", id)))]),
        )])
    };
    let doc = obj(vec![(
        "items",
        obj(vec![
            ("items", arr(vec![item("a", "First"), item("b", "Second"), obj(vec![]), item("a", "Again")])),
            ("total", n(4)),
            ("next", s("https://next")),
        ]),
    )]);
    let m = tracks_from_document(Ok(doc)).unwrap();
    assert_eq!(m.total, 4);
    assert_eq!(m.next.as_deref(), Some("https://next"));
    assert_eq!(m.len(), 2);
    let (k0, v0) = m.get_index(0).unwrap();
    assert_eq!(k0, "a");
    assert_eq!(v0.name, "Again");
    assert_eq!(v0.uri, "spotify:track:a");
    assert_eq!(v0.artist, "Unknown");
    let (k1, _) = m.get_index(1).unwrap();
    assert_eq!(k1, "b");
    assert!(m.get_index(2).is_none());
}
