//! Requests to the Spotify Web API and the reading of its replies.
//!
//! Sending a request is left to the caller: every operation is split into the
//! request it makes and a reader of the reply that came back.
use vstd::prelude::*;
use vstd::string::StringExecFns;
use vstd::utf8::encode_utf8;
use crate::json::{
    JsonValue, parse_json, parsed_json, document_view, deref_opt, field, index, as_array, opt_string, string_or, opt_u64, u64_or, opt_bool,
    json_field, json_item, json_as_str, json_as_u64, json_as_bool, json_as_array, json_str_or,
    json_u64_or,
};
use crate::events::message::{
    Track, TrackItem, TrackItemView, MusicList, Playlist, UserProfile, Device, entries_insert,
    track_map_entries, track_map_new, track_map_insert,
};
use crate::text::{decimal, decimal_string, owned, url_encode, percent_encoded};

verus! {

/// The address that every endpoint path is relative to.
pub open spec fn base_url() -> Seq<char> {
    "https://api.spotify.com"@
}

/// The status line of an HTTP reply.
#[derive(Debug, Clone)]
pub struct HttpStatus {
    pub code: u16,
    /// The canonical reason phrase of the code, where the code has one.
    pub reason: Option<String>,
}

impl HttpStatus {
    /// A status in the 2xx range.
    pub open spec fn spec_is_success(&self) -> bool {
        200 <= self.code <= 299
    }

    /// The status as it is displayed: the code, a space and the reason phrase.
    pub open spec fn spec_text(&self) -> Seq<char> {
        decimal(self.code as nat) + " "@ + match self.reason {
            Some(r) => r@,
            None => "<unknown status code>"@,
        }
    }

    /// Whether the status is in the 2xx range.
    pub fn is_success(&self) -> (r: bool)
        ensures
            r == self.spec_is_success(),
    {
        200 <= self.code && self.code <= 299
    }

    /// The status as it is displayed, such as `404 Not Found`.
    pub fn text(&self) -> (r: String)
        ensures
            r@ == self.spec_text(),
    {
        let mut s = decimal_string(self.code as u64);
        s.append(" ");
        match &self.reason {
            Some(r) => s.append(r.as_str()),
            None => s.append("<unknown status code>"),
        }
        s
    }
}

/// Why a call to the Web API failed.
#[derive(Debug, Clone)]
pub enum ClientError {
    /// No access token is held.
    NotAuthenticated,
    /// The reply had a status outside the 2xx range.
    Api { status: HttpStatus, endpoint: String, body: String },
    /// The reply body is not valid JSON; the parser's message.
    Json(String),
    /// The request could not be sent or its reply not be read; the message.
    Transport(String),
}

impl ClientError {
    /// The message that describes the error.
    pub open spec fn spec_message(&self) -> Seq<char> {
        match self {
            ClientError::NotAuthenticated => "Not authenticated"@,
            ClientError::Api { status, endpoint, body } => "API error "@ + status.spec_text() + " for "@
                + endpoint@ + ": "@ + body@,
            ClientError::Json(m) => m@,
            ClientError::Transport(m) => m@,
        }
    }

    /// The message that describes the error.
    pub fn message(&self) -> (r: String)
        ensures
            r@ == self.spec_message(),
    {
        match self {
            ClientError::NotAuthenticated => owned("Not authenticated"),
            ClientError::Api { status, endpoint, body } => {
                let mut s = owned("API error ");
                let t = status.text();
                s.append(t.as_str());
                s.append(" for ");
                s.append(endpoint.as_str());
                s.append(": ");
                s.append(body.as_str());
                s
            },
            ClientError::Json(m) => m.clone(),
            ClientError::Transport(m) => m.clone(),
        }
    }
}


/// The HTTP method of a request.
#[derive(Debug, Clone, Copy, PartialEq, Eq)]
pub enum HttpMethod {
    Get,
    Put,
    Post,
}

/// The body of a request.
#[derive(Debug, Clone)]
pub enum RequestBody {
    /// No body, sent with `Content-Length: 0`.
    Empty,
    /// The JSON object `{"device_ids": [...], "play": ...}`.
    TransferPlayback { device_ids: Vec<String>, play: bool },
    /// The JSON object `{"uris": [...]}`: the tracks to play.
    PlayUris { uris: Vec<String> },
}

/// A request to the Web API, ready to be sent with the bearer token.
#[derive(Debug, Clone)]
pub struct ApiRequest {
    pub method: HttpMethod,
    /// The endpoint path, which error messages name.
    pub endpoint: String,
    /// The full address: the base address followed by the endpoint path.
    pub url: String,
    /// The access token sent as `Authorization: Bearer`.
    pub bearer: String,
    pub body: RequestBody,
}

/// A client of the Web API, holding the credentials of the signed-in user.
#[derive(Debug, Clone)]
pub struct SpotifyClient {
    pub client_id: String,
    pub access_token: Option<String>,
    pub refresh_token: Option<String>,
    pub expires_at: Option<i64>,
}

/// A request with an empty body, authorized by `token`, to `endpoint`.
pub open spec fn request_is(
    r: ApiRequest,
    method: HttpMethod,
    endpoint: Seq<char>,
    token: Option<String>,
) -> bool {
    &&& token is Some
    &&& r.method == method
    &&& r.endpoint@ == endpoint
    &&& r.url@ == base_url() + endpoint
    &&& r.bearer@ == token->0@
}

/// What building a request with an empty body gives: the request, or
/// `NotAuthenticated` when no access token is held.
pub open spec fn builds_request(
    r: Result<ApiRequest, ClientError>,
    method: HttpMethod,
    endpoint: Seq<char>,
    token: Option<String>,
) -> bool {
    match r {
        Ok(req) => request_is(req, method, endpoint, token) && req.body is Empty,
        Err(e) => token is None && e is NotAuthenticated,
    }
}

/// The endpoint path of the tracks of a playlist.
pub open spec fn playlist_endpoint(playlist_id: Seq<char>) -> Seq<char> {
    "/v1/playlists/"@ + playlist_id
}

/// The endpoint path of a track search for `query`.
pub open spec fn search_endpoint(query: &str) -> Seq<char> {
    "/v1/search?q="@ + percent_encoded(encode_utf8(query@)) + "&type=track&limit=10"@
}

impl SpotifyClient {
    /// A client of the application registered under `client_id`, with no
    /// credentials yet.
    pub fn new(client_id: &str) -> (c: Self)
        ensures
            c.client_id@ == client_id@,
            c.access_token is None,
            c.refresh_token is None,
            c.expires_at is None,
    {
        SpotifyClient {
            client_id: owned(client_id),
            access_token: None,
            refresh_token: None,
            expires_at: None,
        }
    }

    /// Stores the credentials of the signed-in user.
    pub fn set_token(&mut self, access_token: String, refresh_token: String, expires_at: i64)
        ensures
            final(self).client_id == old(self).client_id,
            final(self).access_token == Some(access_token),
            final(self).refresh_token == Some(refresh_token),
            final(self).expires_at == Some(expires_at),
    {
        self.access_token = Some(access_token);
        self.refresh_token = Some(refresh_token);
        self.expires_at = Some(expires_at);
    }

    /// The access token, or `NotAuthenticated` when there is none.
    pub fn token(&self) -> (r: Result<&str, ClientError>)
        ensures
            match r {
                Ok(t) => self.access_token is Some && t@ == self.access_token->0@,
                Err(e) => self.access_token is None && e is NotAuthenticated,
            },
    {
        match &self.access_token {
            Some(t) => Ok(t.as_str()),
            None => Err(ClientError::NotAuthenticated),
        }
    }

    /// A request with an empty body to `endpoint`.
    fn empty_request(&self, method: HttpMethod, endpoint: &str) -> (r: Result<ApiRequest, ClientError>)
        ensures
            builds_request(r, method, endpoint@, self.access_token),
    {
        let token = self.token()?;
        let mut url = owned("https://api.spotify.com");
        url.append(endpoint);
        Ok(ApiRequest {
            method,
            endpoint: owned(endpoint),
            url,
            bearer: owned(token),
            body: RequestBody::Empty,
        })
    }

    /// Handles the status of a reply: a status outside the 2xx range is an
    /// `Api` error naming the status, the endpoint and the reply body.
    pub fn handle_response_status(status: HttpStatus, endpoint: &str, body: String) -> (r: Result<
        (),
        ClientError,
    >)
        ensures
            status.spec_is_success() ==> r is Ok,
            !status.spec_is_success() ==> (r matches Err(ClientError::Api { status: s, endpoint: e, body: b })
                && s == status && e@ == endpoint@ && b == body),
    {
        if !status.is_success() {
            return Err(ClientError::Api { status, endpoint: owned(endpoint), body });
        }
        Ok(())
    }

    /// The request that plays the track `uri` (`PUT /v1/me/player/play` with
    /// `{"uris": [uri]}`).
    pub fn play(&self, uri: String) -> (r: Result<ApiRequest, ClientError>)
        ensures
            match r {
                Ok(req) => request_is(req, HttpMethod::Put, "/v1/me/player/play"@, self.access_token)
                    && (req.body matches RequestBody::PlayUris { uris } && uris@ == seq![uri]),
                Err(e) => self.access_token is None && e is NotAuthenticated,
            },
    {
        let mut req = self.empty_request(HttpMethod::Put, "/v1/me/player/play")?;
        let mut uris: Vec<String> = Vec::new();
        uris.push(uri);
        req.body = RequestBody::PlayUris { uris };
        Ok(req)
    }

    /// The request that resumes playback where it stopped
    /// (`PUT /v1/me/player/play`, empty body).
    pub fn resume(&self) -> (r: Result<ApiRequest, ClientError>)
        ensures
            builds_request(r, HttpMethod::Put, "/v1/me/player/play"@, self.access_token),
    {
        self.empty_request(HttpMethod::Put, "/v1/me/player/play")
    }

    /// The request that pauses playback (`PUT /v1/me/player/pause`).
    pub fn pause(&self) -> (r: Result<ApiRequest, ClientError>)
        ensures
            builds_request(r, HttpMethod::Put, "/v1/me/player/pause"@, self.access_token),
    {
        self.empty_request(HttpMethod::Put, "/v1/me/player/pause")
    }

    /// The request that skips to the next track (`POST /v1/me/player/next`).
    pub fn skip_next(&self) -> (r: Result<ApiRequest, ClientError>)
        ensures
            builds_request(r, HttpMethod::Post, "/v1/me/player/next"@, self.access_token),
    {
        self.empty_request(HttpMethod::Post, "/v1/me/player/next")
    }

    /// The request that skips to the previous track (`POST /v1/me/player/previous`).
    pub fn skip_previous(&self) -> (r: Result<ApiRequest, ClientError>)
        ensures
            builds_request(r, HttpMethod::Post, "/v1/me/player/previous"@, self.access_token),
    {
        self.empty_request(HttpMethod::Post, "/v1/me/player/previous")
    }

    /// The request for the track playing now (`GET /v1/me/player/currently-playing`).
    pub fn get_current_track(&self) -> (r: Result<ApiRequest, ClientError>)
        ensures
            builds_request(r, HttpMethod::Get, "/v1/me/player/currently-playing"@, self.access_token),
    {
        self.empty_request(HttpMethod::Get, "/v1/me/player/currently-playing")
    }

    /// The request for the user's playlists (`GET /v1/me/playlists`).
    pub fn get_playlists(&self) -> (r: Result<ApiRequest, ClientError>)
        ensures
            builds_request(r, HttpMethod::Get, "/v1/me/playlists"@, self.access_token),
    {
        self.empty_request(HttpMethod::Get, "/v1/me/playlists")
    }

    /// The request for a playlist and its tracks (`GET /v1/playlists/{id}`).
    pub fn get_tracks(&self, playlist_id: &str) -> (r: Result<ApiRequest, ClientError>)
        ensures
            builds_request(r, HttpMethod::Get, playlist_endpoint(playlist_id@), self.access_token),
    {
        let mut endpoint = owned("/v1/playlists/");
        endpoint.append(playlist_id);
        self.empty_request(HttpMethod::Get, endpoint.as_str())
    }

    /// The request for the user's devices (`GET /v1/me/player/devices`).
    pub fn get_available_devices(&self) -> (r: Result<ApiRequest, ClientError>)
        ensures
            builds_request(r, HttpMethod::Get, "/v1/me/player/devices"@, self.access_token),
    {
        self.empty_request(HttpMethod::Get, "/v1/me/player/devices")
    }

    /// The request that moves playback to a device and starts it
    /// (`PUT /v1/me/player` with `{"device_ids": [device_id], "play": true}`).
    pub fn change_devices(&self, device_id: &str) -> (r: Result<ApiRequest, ClientError>)
        ensures
            match r {
                Ok(req) => request_is(req, HttpMethod::Put, "/v1/me/player"@, self.access_token)
                    && (req.body matches RequestBody::TransferPlayback { device_ids, play }
                    && play && device_ids@.len() == 1 && device_ids@[0]@ == device_id@),
                Err(e) => self.access_token is None && e is NotAuthenticated,
            },
    {
        let mut req = self.empty_request(HttpMethod::Put, "/v1/me/player")?;
        let mut device_ids: Vec<String> = Vec::new();
        device_ids.push(owned(device_id));
        req.body = RequestBody::TransferPlayback { device_ids, play: true };
        Ok(req)
    }

    /// The request that searches tracks for `query`
    /// (`GET /v1/search?q={query}&type=track&limit=10`, the query percent-encoded).
    pub fn search(&self, query: &str) -> (r: Result<ApiRequest, ClientError>)
        ensures
            builds_request(r, HttpMethod::Get, search_endpoint(query), self.access_token),
    {
        let mut endpoint = owned("/v1/search?q=");
        let encoded = url_encode(query);
        endpoint.append(encoded.as_str());
        endpoint.append("&type=track&limit=10");
        self.empty_request(HttpMethod::Get, endpoint.as_str())
    }

    /// The request for the user's profile (`GET /v1/me`).
    pub fn me(&self) -> (r: Result<ApiRequest, ClientError>)
        ensures
            builds_request(r, HttpMethod::Get, "/v1/me"@, self.access_token),
    {
        self.empty_request(HttpMethod::Get, "/v1/me")
    }

    /// The request for the recently played tracks (`GET /v1/me/player/recently-played`).
    pub fn get_recently_played(&self) -> (r: Result<ApiRequest, ClientError>)
        ensures
            builds_request(r, HttpMethod::Get, "/v1/me/player/recently-played"@, self.access_token),
    {
        self.empty_request(HttpMethod::Get, "/v1/me/player/recently-played")
    }
}


/// `e` is the `Api` error for a reply with `status` and `body` from `endpoint`.
pub open spec fn is_api_error(e: ClientError, status: HttpStatus, endpoint: Seq<char>, body: String) -> bool {
    &&& e matches ClientError::Api { status: s, endpoint: ep, body: b }
    &&& s == status
    &&& ep@ == endpoint
    &&& b == body
}

/// How a document is read: one that could not be decoded is the `Json`
/// error with the parser's message; otherwise the answer is `Ok` and
/// `read(answer, document)`.
pub open spec fn decodes<T>(
    r: Result<T, ClientError>,
    data: Result<JsonValue, Seq<char>>,
    read: spec_fn(T, JsonValue) -> bool,
) -> bool {
    match data {
        Err(m) => r matches Err(ClientError::Json(j)) && j@ == m,
        Ok(d) => r matches Ok(v) && read(v, d),
    }
}

/// How a reader answers a reply: a status outside the 2xx range is the `Api`
/// error; otherwise the body is decoded as JSON (`parsed_json`) and read as
/// `decodes` says.
pub open spec fn reads_reply<T>(
    r: Result<T, ClientError>,
    status: HttpStatus,
    endpoint: Seq<char>,
    body: String,
    read: spec_fn(T, JsonValue) -> bool,
) -> bool {
    if !status.spec_is_success() {
        r matches Err(e) && is_api_error(e, status, endpoint, body)
    } else {
        decodes(r, parsed_json(body@), read)
    }
}

/// The `Api` error for a reply with `status` and `body` from `endpoint`.
fn api_error(status: HttpStatus, endpoint: &str, body: String) -> (e: ClientError)
    ensures
        is_api_error(e, status, endpoint@, body),
{
    ClientError::Api { status, endpoint: owned(endpoint), body }
}

/// `t` is `item` read as a track (its first artist, its album's name), with
/// the progress `progress`; text that is missing reads as `Unknown`, a missing
/// duration as 0.
pub open spec fn track_read_from(t: Track, item: Option<JsonValue>, progress: u64) -> bool {
    &&& t.name@ == json_str_or(json_field(item, "name"@), "Unknown"@)
    &&& t.artist@ == json_str_or(
        json_field(json_item(json_field(item, "artists"@), 0), "name"@),
        "Unknown"@,
    )
    &&& t.album@ == json_str_or(json_field(json_field(item, "album"@), "name"@), "Unknown"@)
    &&& t.duration_ms == json_u64_or(json_field(item, "duration_ms"@), 0)
    &&& t.progress_ms == progress
}

/// The currently playing document read: `item` as a track with the document's
/// `progress_ms`, or nothing when it has no `item` member.
pub open spec fn current_track_read(r: Option<Track>, d: JsonValue) -> bool {
    match json_field(Some(d), "item"@) {
        Some(item) => r matches Some(t) && track_read_from(
            t,
            Some(item),
            json_u64_or(json_field(Some(d), "progress_ms"@), 0),
        ),
        None => r is None,
    }
}

/// `p` is `item` read as a playlist: the track count is `items.total`, or
/// else `tracks.total`, or else 0.
pub open spec fn playlist_read_from(p: Playlist, item: Option<JsonValue>) -> bool {
    &&& p.id@ == json_str_or(json_field(item, "id"@), ""@)
    &&& p.name@ == json_str_or(json_field(item, "name"@), "Unknown"@)
    &&& p.track_count == match json_as_u64(json_field(json_field(item, "items"@), "total"@)) {
        Some(n) => n,
        None => json_u64_or(json_field(json_field(item, "tracks"@), "total"@), 0),
    }
}

/// Every element of the array under `key` of `d`, read by `read`, in order;
/// nothing when there is no such array.
pub open spec fn list_read<T>(
    r: Seq<T>,
    items: Option<Seq<JsonValue>>,
    read: spec_fn(T, Option<JsonValue>) -> bool,
) -> bool {
    match items {
        Some(items) => r.len() == items.len() && forall|i: int|
            0 <= i < items.len() ==> #[trigger] read(r[i], Some(items[i])),
        None => r.len() == 0,
    }
}

/// `d` is `item` read as a device.
pub open spec fn device_read_from(d: Device, item: Option<JsonValue>) -> bool {
    &&& d.id@ == json_str_or(json_field(item, "id"@), ""@)
    &&& d.name@ == json_str_or(json_field(item, "name"@), "Unknown Device"@)
    &&& d.is_active == match json_as_bool(json_field(item, "is_active"@)) {
        Some(b) => b,
        None => false,
    }
    &&& d.device_type@ == json_str_or(json_field(item, "type"@), "Unknown"@)
    &&& d.volume_percent == match json_as_u64(json_field(item, "volume_percent"@)) {
        Some(v) => if v <= 255 {
            Some(v as u8)
        } else {
            None
        },
        None => None,
    }
}

/// `p` is the profile document `d` read; the fields that the API no longer
/// returns are empty.
pub open spec fn profile_read(p: UserProfile, d: JsonValue) -> bool {
    &&& p.id@ == json_str_or(json_field(Some(d), "id"@), ""@)
    &&& match p.display_name {
        Some(n) => json_as_str(json_field(Some(d), "display_name"@)) == Some(n@),
        None => json_as_str(json_field(Some(d), "display_name"@)) is None,
    }
    &&& p.email is None
    &&& p.country is None
    &&& p.product is None
    &&& p.followers == 0
    &&& match p.profile_image_url {
        Some(u) => json_as_str(json_field(json_item(json_field(Some(d), "images"@), 0), "url"@)) == Some(
            u@,
        ),
        None => json_as_str(json_field(json_item(json_field(Some(d), "images"@), 0), "url"@)) is None,
    }
    &&& p.uri@ == json_str_or(json_field(Some(d), "uri"@), ""@)
}

/// The values under `key` of those elements of `items` that have one, in order.
pub open spec fn present_values(items: Seq<JsonValue>, key: Seq<char>) -> Seq<JsonValue>
    decreases items.len(),
{
    if items.len() == 0 {
        Seq::empty()
    } else {
        let before = present_values(items.drop_last(), key);
        match json_field(Some(items.last()), key) {
            Some(v) => before.push(v),
            None => before,
        }
    }
}

/// `item` read as a track of a playlist.
pub open spec fn track_item_from(track: Option<JsonValue>) -> TrackItemView {
    TrackItemView {
        id: json_str_or(json_field(track, "id"@), ""@),
        name: json_str_or(json_field(track, "name"@), "Unknown"@),
        artist: json_str_or(json_field(json_item(json_field(track, "artists"@), 0), "name"@), "Unknown"@),
        album: json_str_or(json_field(json_field(track, "album"@), "name"@), "Unknown"@),
        duration_ms: json_u64_or(json_field(track, "duration_ms"@), 0),
        uri: json_str_or(json_field(track, "uri"@), ""@),
    }
}

/// The tracks of the playlist entries `entries`, in the order their ids were
/// first seen, each id with the last entry that has it.
pub open spec fn music_entries(entries: Seq<JsonValue>) -> Seq<(Seq<char>, TrackItemView)>
    decreases entries.len(),
{
    if entries.len() == 0 {
        Seq::empty()
    } else {
        let before = music_entries(entries.drop_last());
        match json_field(Some(entries.last()), "item"@) {
            Some(track) => {
                let t = track_item_from(Some(track));
                entries_insert(before, t.id, t)
            },
            None => before,
        }
    }
}

/// The playlist document `d` read as the list of its tracks.
pub open spec fn music_list_read(m: MusicList, d: JsonValue) -> bool {
    let page = json_field(Some(d), "items"@);
    &&& track_map_entries(m.items) == match json_as_array(json_field(page, "items"@)) {
        Some(entries) => music_entries(entries),
        None => Seq::empty(),
    }
    &&& m.total == json_u64_or(json_field(page, "total"@), 0) as usize
    &&& match m.next {
        Some(n) => json_as_str(json_field(page, "next"@)) == Some(n@),
        None => json_as_str(json_field(page, "next"@)) is None,
    }
}

/// A track read from a reply is credited to the first of its artists: its
/// artist is the `name` of element 0 of `artists` (`Unknown` when there is
/// none), however many artists follow; its name is `name`, its album the
/// album's `name`, its duration `duration_ms` and its progress the one given.
pub proof fn lemma_track_is_credited_to_first_artist(t: Track, item: Option<JsonValue>, progress: u64)
    requires
        track_read_from(t, item, progress),
    ensures
        t.artist@ == json_str_or(json_field(json_item(json_field(item, "artists"@), 0), "name"@), "Unknown"@),
        t.name@ == json_str_or(json_field(item, "name"@), "Unknown"@),
        t.album@ == json_str_or(json_field(json_field(item, "album"@), "name"@), "Unknown"@),
        t.duration_ms == json_u64_or(json_field(item, "duration_ms"@), 0),
        t.progress_ms == progress,
{
}

/// A playlist track is credited to the first of its artists: its artist is
/// the `name` of element 0 of `artists` (`Unknown` when there is none),
/// however many artists follow; its id, name, album, duration and uri are
/// the track's `id`, `name`, album `name`, `duration_ms` and `uri`.
pub proof fn lemma_playlist_track_is_credited_to_first_artist(track: Option<JsonValue>)
    ensures
        track_item_from(track).artist == json_str_or(
            json_field(json_item(json_field(track, "artists"@), 0), "name"@),
            "Unknown"@,
        ),
        track_item_from(track).id == json_str_or(json_field(track, "id"@), ""@),
        track_item_from(track).name == json_str_or(json_field(track, "name"@), "Unknown"@),
        track_item_from(track).album == json_str_or(json_field(json_field(track, "album"@), "name"@), "Unknown"@),
        track_item_from(track).duration_ms == json_u64_or(json_field(track, "duration_ms"@), 0),
        track_item_from(track).uri == json_str_or(json_field(track, "uri"@), ""@),
{
}

/// A device read from a reply is active exactly when `is_active` is `true`,
/// and has a volume only when `volume_percent` is a whole number of at most
/// 255, which it then is.
pub proof fn lemma_device_activity_and_volume(d: Device, item: Option<JsonValue>)
    requires
        device_read_from(d, item),
    ensures
        d.is_active == (json_as_bool(json_field(item, "is_active"@)) == Some(true)),
        d.volume_percent is Some <==> (json_as_u64(json_field(item, "volume_percent"@)) is Some
            && json_as_u64(json_field(item, "volume_percent"@))->0 <= 255),
        d.volume_percent is Some ==> d.volume_percent->0 == json_as_u64(json_field(item, "volume_percent"@))->0,
        d.id@ == json_str_or(json_field(item, "id"@), ""@),
        d.name@ == json_str_or(json_field(item, "name"@), "Unknown Device"@),
{
}

/// A playlist's track count is `items.total` where the reply has it, else
/// `tracks.total`, else 0.
pub proof fn lemma_playlist_track_count(p: Playlist, item: Option<JsonValue>)
    requires
        playlist_read_from(p, item),
    ensures
        json_as_u64(json_field(json_field(item, "items"@), "total"@)) matches Some(n) ==> p.track_count == n,
        json_as_u64(json_field(json_field(item, "items"@), "total"@)) is None ==> p.track_count == json_u64_or(
            json_field(json_field(item, "tracks"@), "total"@),
            0,
        ),
        p.id@ == json_str_or(json_field(item, "id"@), ""@),
        p.name@ == json_str_or(json_field(item, "name"@), "Unknown"@),
{
}

/// Reads `item` as a track with the progress `progress`.
pub fn read_track(item: Option<&JsonValue>, progress: u64) -> (t: Track)
    ensures
        track_read_from(t, deref_opt(item), progress),
        t.artist@ == json_str_or(
            json_field(json_item(json_field(deref_opt(item), "artists"@), 0), "name"@),
            "Unknown"@,
        ),
        t.name@ == json_str_or(json_field(deref_opt(item), "name"@), "Unknown"@),
        t.album@ == json_str_or(json_field(json_field(deref_opt(item), "album"@), "name"@), "Unknown"@),
        t.duration_ms == json_u64_or(json_field(deref_opt(item), "duration_ms"@), 0),
        t.progress_ms == progress,
{
    Track {
        name: string_or(field(item, "name"), "Unknown"),
        artist: string_or(field(index(field(item, "artists"), 0), "name"), "Unknown"),
        album: string_or(field(field(item, "album"), "name"), "Unknown"),
        duration_ms: u64_or(field(item, "duration_ms"), 0),
        progress_ms: progress,
    }
}

fn read_playlist(item: Option<&JsonValue>) -> (p: Playlist)
    ensures
        playlist_read_from(p, deref_opt(item)),
{
    let track_count = match opt_u64(field(field(item, "items"), "total")) {
        Some(n) => n,
        None => u64_or(field(field(item, "tracks"), "total"), 0),
    };
    Playlist {
        id: string_or(field(item, "id"), ""),
        name: string_or(field(item, "name"), "Unknown"),
        track_count,
    }
}

fn read_device(item: Option<&JsonValue>) -> (d: Device)
    ensures
        device_read_from(d, deref_opt(item)),
{
    let is_active = match opt_bool(field(item, "is_active")) {
        Some(b) => b,
        None => false,
    };
    let volume_percent = match opt_u64(field(item, "volume_percent")) {
        Some(v) => if v <= 255 {
            Some(v as u8)
        } else {
            None
        },
        None => None,
    };
    Device {
        id: string_or(field(item, "id"), ""),
        name: string_or(field(item, "name"), "Unknown Device"),
        is_active,
        device_type: string_or(field(item, "type"), "Unknown"),
        volume_percent,
    }
}

fn read_track_item(track: Option<&JsonValue>) -> (t: TrackItem)
    ensures
        t@ == track_item_from(deref_opt(track)),
        t.artist@ == json_str_or(
            json_field(json_item(json_field(deref_opt(track), "artists"@), 0), "name"@),
            "Unknown"@,
        ),
        t.id@ == json_str_or(json_field(deref_opt(track), "id"@), ""@),
        t.name@ == json_str_or(json_field(deref_opt(track), "name"@), "Unknown"@),
        t.album@ == json_str_or(json_field(json_field(deref_opt(track), "album"@), "name"@), "Unknown"@),
        t.duration_ms == json_u64_or(json_field(deref_opt(track), "duration_ms"@), 0),
        t.uri@ == json_str_or(json_field(deref_opt(track), "uri"@), ""@),
{
    TrackItem {
        id: string_or(field(track, "id"), ""),
        name: string_or(field(track, "name"), "Unknown"),
        artist: string_or(field(index(field(track, "artists"), 0), "name"), "Unknown"),
        album: string_or(field(field(track, "album"), "name"), "Unknown"),
        duration_ms: u64_or(field(track, "duration_ms"), 0),
        uri: string_or(field(track, "uri"), ""),
    }
}


fn read_playlist_list(items: Option<&JsonValue>) -> (r: Vec<Playlist>)
    ensures
        list_read(r@, json_as_array(deref_opt(items)), (|p: Playlist, e: Option<JsonValue>| playlist_read_from(p, e))),
{
    let mut out: Vec<Playlist> = Vec::new();
    match as_array(items) {
        Some(arr) => {
            let mut i: usize = 0;
            while i < arr.len()
                invariant
                    i <= arr@.len(),
                    out@.len() == i,
                    forall|j: int| 0 <= j < i ==> #[trigger] playlist_read_from(out@[j], Some(arr@[j])),
                decreases arr@.len() - i,
            {
                out.push(read_playlist(Some(&arr[i])));
                i = i + 1;
            }
        },
        None => {},
    }
    out
}

/// Reads a playlists document: every element of `items`, read as a playlist.
pub fn playlists_from_document(data: Result<JsonValue, String>) -> (r: Result<Vec<Playlist>, ClientError>)
    ensures
        decodes(r, document_view(data), (|v: Vec<Playlist>, d: JsonValue|
                list_read(
                    v@,
                    json_as_array(json_field(Some(d), "items"@)),
                    (|p: Playlist, e: Option<JsonValue>| playlist_read_from(p, e)),
                ))),
{
    match data {
        Err(m) => Err(ClientError::Json(m)),
        Ok(d) => Ok(read_playlist_list(field(Some(&d), "items"))),
    }
}

/// Reads the reply of a playlists request.
pub fn read_playlists(status: HttpStatus, endpoint: &str, body: String) -> (r: Result<Vec<Playlist>, ClientError>)
    ensures
        reads_reply(r, status, endpoint@, body, (|v: Vec<Playlist>, d: JsonValue|
                list_read(
                    v@,
                    json_as_array(json_field(Some(d), "items"@)),
                    (|p: Playlist, e: Option<JsonValue>| playlist_read_from(p, e)),
                ))),
{
    if !status.is_success() {
        return Err(api_error(status, endpoint, body));
    }
    playlists_from_document(parse_json(body.as_str()))
}

fn read_device_list(items: Option<&JsonValue>) -> (r: Vec<Device>)
    ensures
        list_read(r@, json_as_array(deref_opt(items)), (|x: Device, e: Option<JsonValue>| device_read_from(x, e))),
{
    let mut out: Vec<Device> = Vec::new();
    match as_array(items) {
        Some(arr) => {
            let mut i: usize = 0;
            while i < arr.len()
                invariant
                    i <= arr@.len(),
                    out@.len() == i,
                    forall|j: int| 0 <= j < i ==> #[trigger] device_read_from(out@[j], Some(arr@[j])),
                decreases arr@.len() - i,
            {
                out.push(read_device(Some(&arr[i])));
                i = i + 1;
            }
        },
        None => {},
    }
    out
}

/// Reads a devices document: every element of `devices`, read as a device.
pub fn devices_from_document(data: Result<JsonValue, String>) -> (r: Result<Vec<Device>, ClientError>)
    ensures
        decodes(r, document_view(data), (|v: Vec<Device>, d: JsonValue|
                list_read(
                    v@,
                    json_as_array(json_field(Some(d), "devices"@)),
                    (|x: Device, e: Option<JsonValue>| device_read_from(x, e)),
                ))),
{
    match data {
        Err(m) => Err(ClientError::Json(m)),
        Ok(d) => Ok(read_device_list(field(Some(&d), "devices"))),
    }
}

/// Reads the reply of a devices request.
pub fn read_available_devices(status: HttpStatus, endpoint: &str, body: String) -> (r: Result<Vec<Device>, ClientError>)
    ensures
        reads_reply(r, status, endpoint@, body, (|v: Vec<Device>, d: JsonValue|
                list_read(
                    v@,
                    json_as_array(json_field(Some(d), "devices"@)),
                    (|x: Device, e: Option<JsonValue>| device_read_from(x, e)),
                ))),
{
    if !status.is_success() {
        return Err(api_error(status, endpoint, body));
    }
    devices_from_document(parse_json(body.as_str()))
}

fn read_track_list(items: Option<&JsonValue>) -> (r: Vec<Track>)
    ensures
        list_read(r@, json_as_array(deref_opt(items)), (|t: Track, e: Option<JsonValue>| track_read_from(t, e, 0))),
{
    let mut out: Vec<Track> = Vec::new();
    match as_array(items) {
        Some(arr) => {
            let mut i: usize = 0;
            while i < arr.len()
                invariant
                    i <= arr@.len(),
                    out@.len() == i,
                    forall|j: int| 0 <= j < i ==> #[trigger] track_read_from(out@[j], Some(arr@[j]), 0),
                decreases arr@.len() - i,
            {
                out.push(read_track(Some(&arr[i]), 0));
                i = i + 1;
            }
        },
        None => {},
    }
    out
}

/// Reads a search document: every element of `tracks.items`, read as a track
/// with no progress.
pub fn search_from_document(data: Result<JsonValue, String>) -> (r: Result<Vec<Track>, ClientError>)
    ensures
        decodes(r, document_view(data), (|v: Vec<Track>, d: JsonValue|
                list_read(
                    v@,
                    json_as_array(json_field(json_field(Some(d), "tracks"@), "items"@)),
                    (|t: Track, e: Option<JsonValue>| track_read_from(t, e, 0)),
                ))),
{
    match data {
        Err(m) => Err(ClientError::Json(m)),
        Ok(d) => Ok(read_track_list(field(field(Some(&d), "tracks"), "items"))),
    }
}

/// Reads the reply of a search.
pub fn read_search(status: HttpStatus, endpoint: &str, body: String) -> (r: Result<Vec<Track>, ClientError>)
    ensures
        reads_reply(r, status, endpoint@, body, (|v: Vec<Track>, d: JsonValue|
                list_read(
                    v@,
                    json_as_array(json_field(json_field(Some(d), "tracks"@), "items"@)),
                    (|t: Track, e: Option<JsonValue>| track_read_from(t, e, 0)),
                ))),
{
    if !status.is_success() {
        return Err(api_error(status, endpoint, body));
    }
    search_from_document(parse_json(body.as_str()))
}

/// The recently played document read: the `track` of every element of
/// `items` that has one, with no progress.
pub open spec fn recently_played_read(v: Vec<Track>, d: JsonValue) -> bool {
    let tracks = match json_as_array(json_field(Some(d), "items"@)) {
        Some(items) => present_values(items, "track"@),
        None => Seq::empty(),
    };
    &&& v@.len() == tracks.len()
    &&& forall|i: int| 0 <= i < tracks.len() ==> #[trigger] track_read_from(v@[i], Some(tracks[i]), 0)
}

/// Reads a recently played document: the `track` of every element of
/// `items` that has one, with no progress.
pub fn recently_played_from_document(data: Result<JsonValue, String>) -> (r: Result<Vec<Track>, ClientError>)
    ensures
        decodes(r, document_view(data), (|v: Vec<Track>, d: JsonValue| recently_played_read(v, d))),
{
    let d = match data {
        Err(m) => return Err(ClientError::Json(m)),
        Ok(d) => d,
    };
    let mut out: Vec<Track> = Vec::new();
    match as_array(field(Some(&d), "items")) {
        Some(arr) => {
            let mut i: usize = 0;
            while i < arr.len()
                invariant
                    i <= arr@.len(),
                    out@.len() == present_values(arr@.take(i as int), "track"@).len(),
                    forall|j: int|
                        0 <= j < out@.len() ==> #[trigger] track_read_from(
                            out@[j],
                            Some(present_values(arr@.take(i as int), "track"@)[j]),
                            0,
                        ),
                decreases arr@.len() - i,
            {
                assert(arr@.take(i + 1).drop_last() =~= arr@.take(i as int));
                assert(arr@.take(i + 1).last() == arr@[i as int]);
                let t = field(Some(&arr[i]), "track");
                match t {
                    Some(track) => {
                        out.push(read_track(Some(track), 0));
                    },
                    None => {},
                }
                i = i + 1;
            }
            assert(arr@.take(arr@.len() as int) =~= arr@);
        },
        None => {},
    }
    Ok(out)
}

/// Reads the reply of a recently played request. A 403 reply (the scope for
/// it was not granted) reads as no tracks.
pub fn read_recently_played(status: HttpStatus, endpoint: &str, body: String) -> (r: Result<Vec<Track>, ClientError>)
    ensures
        status.code == 403 ==> (r matches Ok(v) && v@.len() == 0),
        status.code != 403 ==> reads_reply(
            r,
            status,
            endpoint@,
            body,
            (|v: Vec<Track>, d: JsonValue| recently_played_read(v, d)),
        ),
{
    if status.code == 403 {
        return Ok(Vec::new());
    }
    if !status.is_success() {
        return Err(api_error(status, endpoint, body));
    }
    recently_played_from_document(parse_json(body.as_str()))
}

/// Reads a profile document.
pub fn profile_from_document(data: Result<JsonValue, String>) -> (r: Result<UserProfile, ClientError>)
    ensures
        decodes(r, document_view(data), (|p: UserProfile, d: JsonValue| profile_read(p, d))),
{
    let d = match data {
        Err(m) => return Err(ClientError::Json(m)),
        Ok(d) => d,
    };
    let root = Some(&d);
    Ok(UserProfile {
        id: string_or(field(root, "id"), ""),
        display_name: opt_string(field(root, "display_name")),
        email: None,
        country: None,
        product: None,
        followers: 0,
        profile_image_url: opt_string(field(index(field(root, "images"), 0), "url")),
        uri: string_or(field(root, "uri"), ""),
    })
}

/// Reads the reply of a profile request.
pub fn read_me(status: HttpStatus, endpoint: &str, body: String) -> (r: Result<UserProfile, ClientError>)
    ensures
        reads_reply(r, status, endpoint@, body, (|p: UserProfile, d: JsonValue| profile_read(p, d))),
{
    if !status.is_success() {
        return Err(api_error(status, endpoint, body));
    }
    profile_from_document(parse_json(body.as_str()))
}

/// Reads a currently playing document: the `item` member as a track, with
/// the document's `progress_ms`; nothing when there is no `item`.
pub fn current_track_from_document(data: Result<JsonValue, String>) -> (r: Result<Option<Track>, ClientError>)
    ensures
        decodes(r, document_view(data), (|v: Option<Track>, d: JsonValue| current_track_read(v, d))),
{
    let d = match data {
        Err(m) => return Err(ClientError::Json(m)),
        Ok(d) => d,
    };
    match field(Some(&d), "item") {
        Some(it) => Ok(Some(read_track(Some(it), u64_or(field(Some(&d), "progress_ms"), 0)))),
        None => Ok(None),
    }
}

/// Reads the reply of a currently playing request. An empty body, as the
/// reply that nothing plays (204) has, is not a document: it reads as the
/// `Json` error.
pub fn read_current_track(status: HttpStatus, endpoint: &str, body: String) -> (r: Result<Option<Track>, ClientError>)
    ensures
        reads_reply(r, status, endpoint@, body, (|v: Option<Track>, d: JsonValue| current_track_read(v, d))),
        status.spec_is_success() && body@.len() == 0 ==> r matches Err(ClientError::Json(_)),
{
    if !status.is_success() {
        return Err(api_error(status, endpoint, body));
    }
    current_track_from_document(parse_json(body.as_str()))
}

/// Whether a currently playing reply says that nothing is playing (status
/// 204), in which case the recently played tracks are asked for first.
pub fn nothing_playing(status: &HttpStatus) -> (r: bool)
    ensures
        r == (status.code == 204),
{
    status.code == 204
}

/// What the recently played tracks settle when nothing is playing: the most
/// recent track when there is one; no track when they could not be had; and,
/// when there are none, `None`, which leaves the answer to the currently
/// playing reply itself (for the empty body of a 204 reply, the `Json`
/// error; see `read_current_track`).
pub fn track_from_recent(recent: Result<Vec<Track>, ClientError>) -> (r: Option<Option<Track>>)
    ensures
        match recent {
            Ok(v) => if v@.len() > 0 {
                r == Some(Some(v@[0]))
            } else {
                r is None
            },
            Err(_) => r == Some(None::<Track>),
        },
{
    match recent {
        Ok(mut v) => {
            if v.len() > 0 {
                Some(Some(v.remove(0)))
            } else {
                None
            }
        },
        Err(_) => Some(None),
    }
}

/// Reads a playlist document as the list of its tracks: keyed by track id
/// in the order first seen, `total` and `next` from the page.
pub fn tracks_from_document(data: Result<JsonValue, String>) -> (r: Result<MusicList, ClientError>)
    ensures
        decodes(r, document_view(data), (|m: MusicList, d: JsonValue| music_list_read(m, d))),
{
    let d = match data {
        Err(m) => return Err(ClientError::Json(m)),
        Ok(d) => d,
    };
    let page = field(Some(&d), "items");
    let mut items = track_map_new();
    match as_array(field(page, "items")) {
        Some(arr) => {
            let mut i: usize = 0;
            while i < arr.len()
                invariant
                    i <= arr@.len(),
                    track_map_entries(items) == music_entries(arr@.take(i as int)),
                decreases arr@.len() - i,
            {
                assert(arr@.take(i + 1).drop_last() =~= arr@.take(i as int));
                assert(arr@.take(i + 1).last() == arr@[i as int]);
                match field(Some(&arr[i]), "item") {
                    Some(track) => {
                        let t = read_track_item(Some(track));
                        let key = t.id.clone();
                        track_map_insert(&mut items, key, t);
                    },
                    None => {},
                }
                i = i + 1;
            }
            assert(arr@.take(arr@.len() as int) =~= arr@);
        },
        None => {},
    }
    let total = u64_or(field(page, "total"), 0) as usize;
    let next = opt_string(field(page, "next"));
    Ok(MusicList { items, total, next })
}

/// Reads the reply of a playlist request as the list of its tracks.
pub fn read_tracks(status: HttpStatus, endpoint: &str, body: String) -> (r: Result<MusicList, ClientError>)
    ensures
        reads_reply(r, status, endpoint@, body, (|m: MusicList, d: JsonValue| music_list_read(m, d))),
{
    if !status.is_success() {
        return Err(api_error(status, endpoint, body));
    }
    tracks_from_document(parse_json(body.as_str()))
}

} // verus!
