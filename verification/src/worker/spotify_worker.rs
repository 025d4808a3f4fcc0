//! The decisions of the Spotify worker: which call an action asks for, and
//! which updates the outcome of a call is reported with.
use vstd::prelude::*;
use vstd::string::StringExecFns;
use crate::events::message::{Action, Device, MusicList, Playlist, StateUpdateEnum, Track, UserProfile};
use crate::spotify::client::{ClientError};
use crate::text::owned;

verus! {

/// A call to the Web API that an action asks for.
#[derive(Debug, Clone)]
pub enum ApiCall {
    /// Resume playback.
    Play,
    /// Play the track with this uri.
    PlayTrack(String),
    Pause,
    SkipNext,
    SkipPrevious,
    CurrentTrack,
    Devices,
    ChangeDevice(String),
    Playlists,
    /// The tracks of the playlist with this id.
    PlaylistTracks(String),
    Search(String),
    Profile,
}

/// What the worker does with an action.
#[derive(Debug, Clone)]
pub enum WorkerStep {
    /// Run the authentication flow.
    Authenticate,
    /// Make a call to the Web API.
    Call(ApiCall),
    /// Stop the worker.
    Stop,
    /// Nothing (the liked songs, whose endpoint is gone, and the actions the
    /// worker does not handle).
    Ignore,
}

/// What the worker does with `a`.
pub open spec fn step_of(a: Action) -> WorkerStep {
    match a {
        Action::Authenticate => WorkerStep::Authenticate,
        Action::Play => WorkerStep::Call(ApiCall::Play),
        Action::PlayTrack(uri) => WorkerStep::Call(ApiCall::PlayTrack(uri)),
        Action::Pause => WorkerStep::Call(ApiCall::Pause),
        Action::Quit => WorkerStep::Stop,
        Action::NextTrack => WorkerStep::Call(ApiCall::SkipNext),
        Action::PreviousTrack => WorkerStep::Call(ApiCall::SkipPrevious),
        Action::GetCurrentTrack => WorkerStep::Call(ApiCall::CurrentTrack),
        Action::GetDevices => WorkerStep::Call(ApiCall::Devices),
        Action::ChangeDevice(id) => WorkerStep::Call(ApiCall::ChangeDevice(id)),
        Action::GetPlaylists => WorkerStep::Call(ApiCall::Playlists),
        Action::GetPlaylistTracks(id) => WorkerStep::Call(ApiCall::PlaylistTracks(id)),
        Action::Search(q) => WorkerStep::Call(ApiCall::Search(q)),
        Action::GetProfile => WorkerStep::Call(ApiCall::Profile),
        _ => WorkerStep::Ignore,
    }
}

/// What the worker does with an action.
pub fn plan(action: Action) -> (s: WorkerStep)
    ensures
        s == step_of(action),
        action is Play ==> s == WorkerStep::Call(ApiCall::Play),
        action is Pause ==> s == WorkerStep::Call(ApiCall::Pause),
        action is NextTrack ==> s == WorkerStep::Call(ApiCall::SkipNext),
        action is PreviousTrack ==> s == WorkerStep::Call(ApiCall::SkipPrevious),
        action matches Action::PlayTrack(u) ==> s == WorkerStep::Call(ApiCall::PlayTrack(u)),
        action is Quit <==> s is Stop,
{
    match action {
        Action::Authenticate => WorkerStep::Authenticate,
        Action::Play => WorkerStep::Call(ApiCall::Play),
        Action::PlayTrack(uri) => WorkerStep::Call(ApiCall::PlayTrack(uri)),
        Action::Pause => WorkerStep::Call(ApiCall::Pause),
        Action::Quit => WorkerStep::Stop,
        Action::NextTrack => WorkerStep::Call(ApiCall::SkipNext),
        Action::PreviousTrack => WorkerStep::Call(ApiCall::SkipPrevious),
        Action::GetCurrentTrack => WorkerStep::Call(ApiCall::CurrentTrack),
        Action::GetDevices => WorkerStep::Call(ApiCall::Devices),
        Action::ChangeDevice(id) => WorkerStep::Call(ApiCall::ChangeDevice(id)),
        Action::GetPlaylists => WorkerStep::Call(ApiCall::Playlists),
        Action::GetPlaylistTracks(id) => WorkerStep::Call(ApiCall::PlaylistTracks(id)),
        Action::Search(q) => WorkerStep::Call(ApiCall::Search(q)),
        Action::GetProfile => WorkerStep::Call(ApiCall::Profile),
        _ => WorkerStep::Ignore,
    }
}

/// Each playback action asks for its own call: resuming for Play, pausing
/// for Pause, skipping forward for NextTrack and back for PreviousTrack, and
/// playing the given track for PlayTrack.
pub proof fn lemma_playback_actions_make_their_calls(uri: String)
    ensures
        step_of(Action::Play) == WorkerStep::Call(ApiCall::Play),
        step_of(Action::Pause) == WorkerStep::Call(ApiCall::Pause),
        step_of(Action::NextTrack) == WorkerStep::Call(ApiCall::SkipNext),
        step_of(Action::PreviousTrack) == WorkerStep::Call(ApiCall::SkipPrevious),
        step_of(Action::PlayTrack(uri)) == WorkerStep::Call(ApiCall::PlayTrack(uri)),
{
}

/// Different actions never ask for the same call: the call an action makes
/// tells which action it was (so Pause is never answered by resuming, nor
/// one device or playlist by another).
pub proof fn lemma_calls_tell_actions_apart(a: Action, b: Action)
    requires
        step_of(a) is Call,
        step_of(a) == step_of(b),
    ensures
        a == b,
{
}

/// The worker stops at the first `Quit` it receives: when `actions` reach it
/// in order and `actions[k]` is the first `Quit`, no earlier action stops it,
/// that one does, and handling it makes no call and reports nothing.
pub proof fn lemma_worker_stops_at_first_quit(actions: Seq<Action>, k: int)
    requires
        0 <= k < actions.len(),
        actions[k] is Quit,
        forall|i: int| 0 <= i < k ==> !(#[trigger] actions[i] is Quit),
    ensures
        forall|i: int| 0 <= i < k ==> !(#[trigger] step_of(actions[i]) is Stop),
        step_of(actions[k]) == WorkerStep::Stop,
{
    assert forall|i: int| 0 <= i < k implies !(#[trigger] step_of(actions[i]) is Stop) by {
        assert(!(actions[i] is Quit));
    }
}

/// `u` reports a failure: the message `prefix` followed by the error's.
pub open spec fn is_failure(u: StateUpdateEnum, prefix: Seq<char>, e: ClientError) -> bool {
    u matches StateUpdateEnum::Error(m) && m@ == prefix + e.spec_message()
}

fn failure(prefix: &str, e: &ClientError) -> (u: StateUpdateEnum)
    ensures
        is_failure(u, prefix@, *e),
{
    let mut m = owned(prefix);
    let detail = e.message();
    m.append(detail.as_str());
    StateUpdateEnum::Error(m)
}

/// A playback command.
#[derive(Debug, Clone, Copy, PartialEq, Eq, Structural)]
pub enum Playback {
    Play,
    Pause,
    Next,
    Previous,
}

/// The start of the message with which a failed playback command is reported.
pub open spec fn playback_failure_prefix(cmd: Playback) -> Seq<char> {
    match cmd {
        Playback::Play => "Play failed: "@,
        Playback::Pause => "Pause failed: "@,
        Playback::Next => "Skip next failed: "@,
        Playback::Previous => "Skip previous failed: "@,
    }
}

/// Reports the outcome of a playback command, and whether the current track
/// is to be fetched next. A failure is reported with its message; playing
/// and pausing report the new playback state; a skip reports nothing yet and
/// asks for the current track.
pub fn report_playback(cmd: Playback, result: Result<(), ClientError>) -> (r: (Vec<StateUpdateEnum>, bool))
    ensures
        match result {
            Err(e) => r.0@.len() == 1 && is_failure(r.0@[0], playback_failure_prefix(cmd), e) && !r.1,
            Ok(()) => match cmd {
                Playback::Play => r.0@ == seq![StateUpdateEnum::PlaybackStatus(true)] && !r.1,
                Playback::Pause => r.0@ == seq![StateUpdateEnum::PlaybackStatus(false)] && !r.1,
                _ => r.0@.len() == 0 && r.1,
            },
        },
{
    let mut updates: Vec<StateUpdateEnum> = Vec::new();
    match result {
        Err(e) => {
            let prefix = match cmd {
                Playback::Play => "Play failed: ",
                Playback::Pause => "Pause failed: ",
                Playback::Next => "Skip next failed: ",
                Playback::Previous => "Skip previous failed: ",
            };
            updates.push(failure(prefix, &e));
            (updates, false)
        },
        Ok(()) => match cmd {
            Playback::Play => {
                updates.push(StateUpdateEnum::PlaybackStatus(true));
                (updates, false)
            },
            Playback::Pause => {
                updates.push(StateUpdateEnum::PlaybackStatus(false));
                (updates, false)
            },
            _ => (updates, true),
        },
    }
}

/// Reports the current track fetched after a skip: the track when there is
/// one, then that playback goes on.
pub fn report_after_skip(current: Result<Option<Track>, ClientError>) -> (r: Vec<StateUpdateEnum>)
    ensures
        match current {
            Ok(Some(t)) => r@ == seq![StateUpdateEnum::TrackInfo(t), StateUpdateEnum::PlaybackStatus(true)],
            _ => r@ == seq![StateUpdateEnum::PlaybackStatus(true)],
        },
{
    let mut updates: Vec<StateUpdateEnum> = Vec::new();
    match current {
        Ok(Some(t)) => updates.push(StateUpdateEnum::TrackInfo(t)),
        _ => {},
    }
    updates.push(StateUpdateEnum::PlaybackStatus(true));
    updates
}

/// Reports a fetch of the current track: the track; or, when nothing plays,
/// a notice and that playback stopped; or the failure.
pub fn report_current_track(result: Result<Option<Track>, ClientError>) -> (r: Vec<StateUpdateEnum>)
    ensures
        match result {
            Ok(Some(t)) => r@ == seq![StateUpdateEnum::TrackInfo(t)],
            Ok(None) => r@.len() == 2 && (r@[0] matches StateUpdateEnum::Error(m) && m@
                == "No track currently playing"@) && r@[1] == StateUpdateEnum::PlaybackStatus(false),
            Err(e) => r@.len() == 1 && is_failure(r@[0], "Failed to get track: "@, e),
        },
{
    let mut updates: Vec<StateUpdateEnum> = Vec::new();
    match result {
        Ok(Some(t)) => updates.push(StateUpdateEnum::TrackInfo(t)),
        Ok(None) => {
            updates.push(StateUpdateEnum::Error(owned("No track currently playing")));
            updates.push(StateUpdateEnum::PlaybackStatus(false));
        },
        Err(e) => updates.push(failure("Failed to get track: ", &e)),
    }
    updates
}

/// Reports a fetch of the devices: the devices, or the failure.
pub fn report_devices(result: Result<Vec<Device>, ClientError>) -> (r: Vec<StateUpdateEnum>)
    ensures
        match result {
            Ok(d) => r@ == seq![StateUpdateEnum::Devices(d)],
            Err(e) => r@.len() == 1 && is_failure(r@[0], "Failed to get devices: "@, e),
        },
{
    let mut updates: Vec<StateUpdateEnum> = Vec::new();
    match result {
        Ok(d) => updates.push(StateUpdateEnum::Devices(d)),
        Err(e) => updates.push(failure("Failed to get devices: ", &e)),
    }
    updates
}

/// Reports a change of device, and whether the devices are to be fetched
/// next: on success, that playback goes on; otherwise the failure.
pub fn report_change_device(result: Result<(), ClientError>) -> (r: (Vec<StateUpdateEnum>, bool))
    ensures
        match result {
            Ok(()) => r.0@ == seq![StateUpdateEnum::PlaybackStatus(true)] && r.1,
            Err(e) => r.0@.len() == 1 && is_failure(r.0@[0], "Failed to change device: "@, e) && !r.1,
        },
{
    let mut updates: Vec<StateUpdateEnum> = Vec::new();
    match result {
        Ok(()) => {
            updates.push(StateUpdateEnum::PlaybackStatus(true));
            (updates, true)
        },
        Err(e) => {
            updates.push(failure("Failed to change device: ", &e));
            (updates, false)
        },
    }
}

/// Reports the devices fetched after a change of device; a failure here is
/// not reported.
pub fn report_devices_after_change(result: Result<Vec<Device>, ClientError>) -> (r: Vec<StateUpdateEnum>)
    ensures
        match result {
            Ok(d) => r@ == seq![StateUpdateEnum::Devices(d)],
            Err(_) => r@.len() == 0,
        },
{
    let mut updates: Vec<StateUpdateEnum> = Vec::new();
    match result {
        Ok(d) => updates.push(StateUpdateEnum::Devices(d)),
        Err(_) => {},
    }
    updates
}

/// Reports a fetch of the playlists: the playlists, or the failure.
pub fn report_playlists(result: Result<Vec<Playlist>, ClientError>) -> (r: Vec<StateUpdateEnum>)
    ensures
        match result {
            Ok(p) => r@ == seq![StateUpdateEnum::Playlists(p)],
            Err(e) => r@.len() == 1 && is_failure(r@[0], "Failed to get playlists: "@, e),
        },
{
    let mut updates: Vec<StateUpdateEnum> = Vec::new();
    match result {
        Ok(p) => updates.push(StateUpdateEnum::Playlists(p)),
        Err(e) => updates.push(failure("Failed to get playlists: ", &e)),
    }
    updates
}

/// Reports a fetch of the tracks of the playlist `playlist_id`: the tracks,
/// under the playlist's id, or the failure.
pub fn report_tracks(playlist_id: String, result: Result<MusicList, ClientError>) -> (r: Vec<StateUpdateEnum>)
    ensures
        match result {
            Ok(m) => r@ == seq![StateUpdateEnum::TrackList(playlist_id, m)],
            Err(e) => r@.len() == 1 && is_failure(r@[0], "Failed to get tracks: "@, e),
        },
{
    let mut updates: Vec<StateUpdateEnum> = Vec::new();
    match result {
        Ok(m) => updates.push(StateUpdateEnum::TrackList(playlist_id, m)),
        Err(e) => updates.push(failure("Failed to get tracks: ", &e)),
    }
    updates
}

/// Reports a search: the tracks found, or the failure.
pub fn report_search(result: Result<Vec<Track>, ClientError>) -> (r: Vec<StateUpdateEnum>)
    ensures
        match result {
            Ok(t) => r@ == seq![StateUpdateEnum::SearchResults(t)],
            Err(e) => r@.len() == 1 && is_failure(r@[0], "Search failed: "@, e),
        },
{
    let mut updates: Vec<StateUpdateEnum> = Vec::new();
    match result {
        Ok(t) => updates.push(StateUpdateEnum::SearchResults(t)),
        Err(e) => updates.push(failure("Search failed: ", &e)),
    }
    updates
}

/// Reports a fetch of the profile: the profile, or the failure.
pub fn report_profile(result: Result<UserProfile, ClientError>) -> (r: Vec<StateUpdateEnum>)
    ensures
        match result {
            Ok(p) => r@ == seq![StateUpdateEnum::UserProfile(p)],
            Err(e) => r@.len() == 1 && is_failure(r@[0], "Failed to get profile: "@, e),
        },
{
    let mut updates: Vec<StateUpdateEnum> = Vec::new();
    match result {
        Ok(p) => updates.push(StateUpdateEnum::UserProfile(p)),
        Err(e) => updates.push(failure("Failed to get profile: ", &e)),
    }
    updates
}

} // verus!
