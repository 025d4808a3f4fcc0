//! What the panels of the interface show, as lines of text with a style; the
//! drawing itself is left to the terminal front end.
use vstd::prelude::*;
use vstd::string::StringExecFns;
use crate::app_state::{AppState, Focus, shown_tracks};
use crate::events::message::{AuthState, Device, MusicList, Playlist, Track, TrackItemView, track_map_entries};
use crate::text::{owned, push_char};

verus! {

/// The look of a line.
#[derive(Debug, Clone, Copy, PartialEq, Eq, Structural)]
pub enum LineStyle {
    /// Cyan and bold: the selected entry, the track name.
    Emphasis,
    /// White: an ordinary entry, the artist.
    Normal,
    /// Yellow: something is being loaded.
    Loading,
    /// Dark gray: a placeholder, the album.
    Muted,
    /// Cyan: the progress bar.
    Accent,
    /// No style of its own.
    Plain,
    /// Yellow and bold: a wait for the user.
    Notice,
    /// Green: the frame of a box.
    Frame,
    /// Green and bold: the text inside a box.
    FrameText,
    /// Red and bold: a warning.
    Alert,
}

/// A line of a panel.
#[derive(Debug, Clone)]
pub struct StyledLine {
    pub text: String,
    pub style: LineStyle,
}

/// A key of the command bar and what it does, such as ` [q] ` and `Quit`.
#[derive(Debug, Clone)]
pub struct Command {
    pub key: String,
    pub label: String,
}

/// Commands by their characters.
pub open spec fn commands_view(c: Seq<Command>) -> Seq<(Seq<char>, Seq<char>)> {
    c.map_values(|x: Command| (x.key@, x.label@))
}

/// Lines by their characters and styles.
pub open spec fn lines_view(l: Seq<StyledLine>) -> Seq<(Seq<char>, LineStyle)> {
    l.map_values(|x: StyledLine| (x.text@, x.style))
}

/// What the whole screen shows.
#[derive(Debug, Clone)]
pub enum Screen {
    /// The player: panels of playlists, tracks, track information and devices.
    Player,
    /// A page of the logo and these lines, in a frame with this title, over a
    /// command bar.
    Page { title: String, lines: Vec<StyledLine>, commands: Vec<Command> },
    /// The whole screen is one framed paragraph with this title, showing the
    /// message in red.
    Failed { title: String, message: String },
}

/// The lines of the page shown while waiting for the user to grant access.
pub open spec fn authenticating_page() -> Seq<(Seq<char>, LineStyle)> {
    seq![
        (Seq::<char>::empty(), LineStyle::Plain),
        ("⏳ Waiting for authentication..."@, LineStyle::Notice),
        (Seq::<char>::empty(), LineStyle::Plain),
        ("╔══════════════════════════════╗"@, LineStyle::Frame),
        ("║  Press [c] to copy auth URL  ║"@, LineStyle::FrameText),
        ("║  Then paste it in browser    ║"@, LineStyle::Frame),
        ("╚══════════════════════════════╝"@, LineStyle::Frame),
        (Seq::<char>::empty(), LineStyle::Plain),
        ("URL ready to copy ✔"@, LineStyle::Muted),
    ]
}

/// The lines of the page shown before signing in.
pub open spec fn sign_in_page() -> Seq<(Seq<char>, LineStyle)> {
    seq![(Seq::<char>::empty(), LineStyle::Plain), (Seq::<char>::empty(), LineStyle::Plain), ("Auth Status: NotAuthenticated"@, LineStyle::Alert)]
}

/// The command bar while waiting for access: copy the address, or quit.
pub open spec fn authenticating_commands() -> Seq<(Seq<char>, Seq<char>)> {
    seq![(" [c] "@, "Copy URL  "@), (" [q] "@, "Quit"@)]
}

/// The command bar before signing in: authenticate, or quit.
pub open spec fn sign_in_commands() -> Seq<(Seq<char>, Seq<char>)> {
    seq![(" [a] "@, "Authenticate  "@), (" [q] "@, "Quit"@)]
}

/// The command bar of the player: previous and next track, play and pause,
/// quit.
pub open spec fn player_command_bar() -> Seq<(Seq<char>, Seq<char>)> {
    seq![(" [←/→] "@, "Prev/Next  "@), (" [space] "@, "Play/Pause  "@), (" [q] "@, "Quit"@)]
}

fn command(key: &str, label: &str) -> (c: Command)
    ensures
        c.key@ == key@,
        c.label@ == label@,
{
    Command { key: owned(key), label: owned(label) }
}

/// The command bar of the player.
pub fn player_commands() -> (r: Vec<Command>)
    ensures
        commands_view(r@) == player_command_bar(),
{
    let mut v: Vec<Command> = Vec::new();
    v.push(command(" [←/→] ", "Prev/Next  "));
    v.push(command(" [space] ", "Play/Pause  "));
    v.push(command(" [q] ", "Quit"));
    assert(commands_view(v@) =~= player_command_bar());
    v
}

/// The screen shown in the authentication state `a`: the player once signed
/// in; the page `Authenticating` while waiting for access; the page
/// `AuthPage` before signing in; the framed message titled ` Error ` when
/// authentication failed.
pub fn screen(a: &AuthState) -> (s: Screen)
    ensures
        match *a {
            AuthState::Authenticated => s is Player,
            AuthState::Authenticating { .. } => s matches Screen::Page { title, lines, commands } && title@
                == "Authenticating"@ && lines_view(lines@) == authenticating_page() && commands_view(commands@)
                == authenticating_commands(),
            AuthState::NotAuthenticated => s matches Screen::Page { title, lines, commands } && title@
                == "AuthPage"@ && lines_view(lines@) == sign_in_page() && commands_view(commands@)
                == sign_in_commands(),
            AuthState::Error(m) => s matches Screen::Failed { title, message } && title@ == " Error "@
                && message == m,
        },
{
    match a {
        AuthState::Authenticated => Screen::Player,
        AuthState::Authenticating { .. } => {
            let mut commands: Vec<Command> = Vec::new();
            commands.push(command(" [c] ", "Copy URL  "));
            commands.push(command(" [q] ", "Quit"));
            assert(commands_view(commands@) =~= authenticating_commands());
            Screen::Page { title: owned("Authenticating"), lines: authenticating_lines(), commands }
        },
        AuthState::NotAuthenticated => {
            let mut commands: Vec<Command> = Vec::new();
            commands.push(command(" [a] ", "Authenticate  "));
            commands.push(command(" [q] ", "Quit"));
            assert(commands_view(commands@) =~= sign_in_commands());
            Screen::Page { title: owned("AuthPage"), lines: sign_in_lines(), commands }
        },
        AuthState::Error(m) => Screen::Failed { title: owned(" Error "), message: m.clone() },
    }
}

/// The banner over the player that shows an error message.
#[derive(Debug, Clone)]
pub struct Banner {
    /// The title of the banner's frame.
    pub title: String,
    /// The warning sign before the message, red and bold.
    pub mark: String,
    /// The message, red.
    pub message: String,
}

/// The error banner: shown, titled ` Error ` with the mark ` ⚠ `, exactly
/// while there is an error message.
pub fn error_banner(app: &AppState) -> (r: Option<Banner>)
    ensures
        match app.error_message {
            Some(m) => r matches Some(b) && b.title@ == " Error "@ && b.mark@ == " ⚠ "@ && b.message == m,
            None => r is None,
        },
{
    match &app.error_message {
        Some(m) => Some(Banner { title: owned(" Error "), mark: owned(" ⚠ "), message: m.clone() }),
        None => None,
    }
}

/// The frames of the loading spinner.
pub open spec fn spinner_frames() -> Seq<char> {
    seq!['⠋', '⠙', '⠹', '⠸', '⠼', '⠴', '⠦', '⠧', '⠇', '⠏']
}

/// The spinner frame shown at `tick`: each frame lasts six ticks.
pub open spec fn spinner_frame(tick: usize) -> char {
    spinner_frames()[((tick / 6) % 10) as int]
}

/// A loading line: a space, the spinner frame, a space, the label and `...`.
pub open spec fn spinner_text_of(tick: usize, label: Seq<char>) -> Seq<char> {
    seq![' ', spinner_frame(tick), ' '] + label + "..."@
}

fn frame(i: usize) -> (c: char)
    requires
        i < 10,
    ensures
        c == spinner_frames()[i as int],
{
    if i == 0 { '⠋' } else if i == 1 { '⠙' } else if i == 2 { '⠹' } else if i == 3 { '⠸' }
    else if i == 4 { '⠼' } else if i == 5 { '⠴' } else if i == 6 { '⠦' } else if i == 7 { '⠧' }
    else if i == 8 { '⠇' } else { '⠏' }
}

/// The loading line for `label` at `tick`, such as ` ⠋ Loading...`.
pub fn spinner_text(tick: usize, label: &str) -> (r: String)
    ensures
        r@ == spinner_text_of(tick, label@),
{
    let mut s = String::new();
    push_char(&mut s, ' ');
    push_char(&mut s, frame((tick / 6) % 10));
    push_char(&mut s, ' ');
    s.append(label);
    s.append("...");
    s
}

/// The lines of a list panel: every entry, the selected one marked `▶` and
/// emphasized; while signed in with nothing loaded yet, a loading line;
/// otherwise the placeholder `empty`.
pub open spec fn list_lines_of(
    lines: Seq<StyledLine>,
    auth: AuthState,
    names: Option<Seq<Seq<char>>>,
    selected: usize,
    tick: usize,
    loading: Seq<char>,
    empty: Seq<char>,
) -> bool {
    if names is Some && names->0.len() > 0 {
        let ns = names->0;
        &&& lines.len() == ns.len()
        &&& forall|i: int|
            0 <= i < ns.len() ==> if i == selected {
                (#[trigger] lines[i]).text@ == " ▶ "@ + ns[i] && lines[i].style == LineStyle::Emphasis
            } else {
                lines[i].text@ == "   "@ + ns[i] && lines[i].style == LineStyle::Normal
            }
    } else if auth is Authenticated && names is None {
        lines.len() == 1 && lines[0].text@ == spinner_text_of(tick, loading) && lines[0].style
            == LineStyle::Loading
    } else {
        lines.len() == 1 && lines[0].text@ == empty && lines[0].style == LineStyle::Muted
    }
}

fn line(text: String, style: LineStyle) -> (l: StyledLine)
    ensures
        l.text == text,
        l.style == style,
{
    StyledLine { text, style }
}

fn list_lines(
    auth: &AuthState,
    names: Option<&Vec<String>>,
    selected: usize,
    tick: usize,
    loading: &str,
    empty: &str,
) -> (r: Vec<StyledLine>)
    ensures
        list_lines_of(
            r@,
            *auth,
            match names {
                Some(v) => Some(v@.map_values(|s: String| s@)),
                None => None,
            },
            selected,
            tick,
            loading@,
            empty@,
        ),
{
    let mut out: Vec<StyledLine> = Vec::new();
    match names {
        Some(list) => {
            if list.len() > 0 {
                let mut i: usize = 0;
                while i < list.len()
                    invariant
                        i <= list@.len(),
                        out@.len() == i,
                        forall|j: int|
                            0 <= j < i ==> if j == selected {
                                (#[trigger] out@[j]).text@ == " ▶ "@ + list@[j]@ && out@[j].style
                                    == LineStyle::Emphasis
                            } else {
                                out@[j].text@ == "   "@ + list@[j]@ && out@[j].style == LineStyle::Normal
                            },
                    decreases list@.len() - i,
                {
                    if i == selected {
                        let mut t = owned(" ▶ ");
                        t.append(list[i].as_str());
                        out.push(line(t, LineStyle::Emphasis));
                    } else {
                        let mut t = owned("   ");
                        t.append(list[i].as_str());
                        out.push(line(t, LineStyle::Normal));
                    }
                    i = i + 1;
                }
                return out;
            }
        },
        None => {
            if let AuthState::Authenticated = auth {
                out.push(line(spinner_text(tick, loading), LineStyle::Loading));
                return out;
            }
        },
    }
    out.push(line(owned(empty), LineStyle::Muted));
    out
}

fn playlist_names(list: &Vec<Playlist>) -> (r: Vec<String>)
    ensures
        r@.map_values(|s: String| s@) == list@.map_values(|p: Playlist| p.name@),
{
    let mut out: Vec<String> = Vec::new();
    let mut i: usize = 0;
    while i < list.len()
        invariant
            i <= list@.len(),
            out@.map_values(|s: String| s@) == list@.take(i as int).map_values(|p: Playlist| p.name@),
        decreases list@.len() - i,
    {
        let ghost before = out@;
        let n = list[i].name.clone();
        assert(n@ == list@[i as int].name@);
        out.push(n);
        assert(out@ =~= before.push(n));
        assert(out@.map_values(|s: String| s@) =~= before.map_values(|s: String| s@).push(n@));
        assert(list@.take(i + 1) =~= list@.take(i as int).push(list@[i as int]));
        assert(out@.map_values(|s: String| s@) =~= list@.take(i + 1).map_values(|p: Playlist| p.name@));
        i = i + 1;
    }
    assert(list@.take(list@.len() as int) =~= list@);
    out
}

/// The lines of the playlist panel: the playlist names, the selected one
/// marked; `Loading playlists` while signed in and none are loaded yet;
/// otherwise ` No playlists`.
pub fn playlist_panel_lines(app: &AppState) -> (r: Vec<StyledLine>)
    ensures
        list_lines_of(
            r@,
            app.auth_state,
            match app.playlist {
                Some(v) => Some(v@.map_values(|p: Playlist| p.name@)),
                None => None,
            },
            app.selected_playlist_index,
            app.tick,
            "Loading playlists"@,
            " No playlists"@,
        ),
{
    match &app.playlist {
        Some(list) => {
            let names = playlist_names(list);
            list_lines(
                &app.auth_state,
                Some(&names),
                app.selected_playlist_index,
                app.tick,
                "Loading playlists",
                " No playlists",
            )
        },
        None => list_lines(
            &app.auth_state,
            None,
            app.selected_playlist_index,
            app.tick,
            "Loading playlists",
            " No playlists",
        ),
    }
}

/// The entry of the devices panel for a device: `●` and its name when it is
/// the active device, `○` and its name otherwise.
pub open spec fn device_entry(d: Device) -> Seq<char> {
    (if d.is_active {
        "● "@
    } else {
        "○ "@
    }) + d.name@
}

fn device_entries(list: &Vec<Device>) -> (r: Vec<String>)
    ensures
        r@.map_values(|s: String| s@) == list@.map_values(|d: Device| device_entry(d)),
{
    let mut out: Vec<String> = Vec::new();
    let mut i: usize = 0;
    while i < list.len()
        invariant
            i <= list@.len(),
            out@.len() == i,
            forall|j: int| 0 <= j < i ==> (#[trigger] out@[j])@ == device_entry(list@[j]),
        decreases list@.len() - i,
    {
        let mut e = if list[i].is_active {
            owned("● ")
        } else {
            owned("○ ")
        };
        e.append(list[i].name.as_str());
        out.push(e);
        i = i + 1;
    }
    assert(out@.map_values(|s: String| s@) =~= list@.map_values(|d: Device| device_entry(d)));
    out
}

/// The lines of the devices panel: every device, `●` before the active one
/// and `○` before the others, the selected one marked; `Loading devices`
/// while signed in and none are known yet; otherwise ` No devices`.
pub fn devices_panel_lines(app: &AppState) -> (r: Vec<StyledLine>)
    ensures
        list_lines_of(
            r@,
            app.auth_state,
            match app.available_devices {
                Some(v) => Some(v@.map_values(|d: Device| device_entry(d))),
                None => None,
            },
            app.selected_device_index,
            app.tick,
            "Loading devices"@,
            " No devices"@,
        ),
{
    match &app.available_devices {
        Some(list) => {
            let entries = device_entries(list);
            list_lines(
                &app.auth_state,
                Some(&entries),
                app.selected_device_index,
                app.tick,
                "Loading devices",
                " No devices",
            )
        },
        None => list_lines(
            &app.auth_state,
            None,
            app.selected_device_index,
            app.tick,
            "Loading devices",
            " No devices",
        ),
    }
}

/// The border of a panel.
#[derive(Debug, Clone, Copy, PartialEq, Eq, Structural)]
pub enum Border {
    /// Yellow: the panel has the keyboard focus.
    Focused,
    /// White.
    Normal,
}

/// The border of `panel`: yellow exactly while it has the focus.
pub fn panel_border(app: &AppState, panel: Focus) -> (r: Border)
    ensures
        r == if app.focus == panel {
            Border::Focused
        } else {
            Border::Normal
        },
{
    if app.focus == panel {
        Border::Focused
    } else {
        Border::Normal
    }
}

/// The line of the music list panel for a track: `name - artist`.
pub open spec fn track_line(t: TrackItemView) -> Seq<char> {
    t.name + " - "@ + t.artist
}

/// The lines of the music list panel for the tracks `m`, in their order.
pub open spec fn music_lines_of(m: MusicList) -> Seq<Seq<char>> {
    track_map_entries(m.items).map_values(|e: (Seq<char>, TrackItemView)| track_line(e.1))
}

/// Each line of the music list names a track and then its artist,
/// separated by ` - `, in the order of the tracks.
pub proof fn lemma_music_lines_name_then_artist(m: MusicList, i: int)
    requires
        0 <= i < track_map_entries(m.items).len(),
    ensures
        music_lines_of(m).len() == track_map_entries(m.items).len(),
        music_lines_of(m)[i] == track_map_entries(m.items)[i].1.name + " - "@ + track_map_entries(
            m.items,
        )[i].1.artist,
{
}

fn track_lines(m: &MusicList) -> (r: Vec<String>)
    ensures
        r@.map_values(|s: String| s@) == music_lines_of(*m),
{
    let n = m.len();
    let mut out: Vec<String> = Vec::new();
    let mut i: usize = 0;
    while i < n
        invariant
            i <= n,
            n == track_map_entries(m.items).len(),
            out@.len() == i,
            forall|j: int| 0 <= j < i ==> (#[trigger] out@[j])@ == track_line(track_map_entries(m.items)[j].1),
        decreases n - i,
    {
        match m.get_index(i) {
            Some(pair) => {
                let mut l = pair.1.name.clone();
                l.append(" - ");
                l.append(pair.1.artist.as_str());
                out.push(l);
            },
            None => {},
        }
        i = i + 1;
    }
    assert(out@.map_values(|s: String| s@) =~= music_lines_of(*m));
    out
}

/// The line of the music list panel for a track a search found:
/// `name - artist`.
pub open spec fn found_line(t: Track) -> Seq<char> {
    t.name@ + " - "@ + t.artist@
}

fn found_lines(v: &Vec<Track>) -> (r: Vec<String>)
    ensures
        r@.map_values(|s: String| s@) == v@.map_values(|t: Track| found_line(t)),
{
    let mut out: Vec<String> = Vec::new();
    let mut i: usize = 0;
    while i < v.len()
        invariant
            i <= v@.len(),
            out@.len() == i,
            forall|j: int| 0 <= j < i ==> (#[trigger] out@[j])@ == found_line(v@[j]),
        decreases v@.len() - i,
    {
        let mut l = v[i].name.clone();
        l.append(" - ");
        l.append(v[i].artist.as_str());
        out.push(l);
        i = i + 1;
    }
    assert(out@.map_values(|s: String| s@) =~= v@.map_values(|t: Track| found_line(t)));
    out
}

/// What the music list panel lists: the tracks the last search found while
/// they are shown, otherwise the tracks of the selected playlist when they
/// are loaded.
pub open spec fn music_panel_entries(app: AppState) -> Option<Seq<Seq<char>>> {
    match app.search_results {
        Some(v) => Some(v@.map_values(|t: Track| found_line(t))),
        None => match shown_tracks(app) {
            Some(m) => Some(music_lines_of(m)),
            None => None,
        },
    }
}

/// The lines of the music list panel: the tracks of the last search, or else
/// of the selected playlist, `name - artist`, the selected one marked;
/// `Loading tracks` while signed in and they are not loaded yet; otherwise
/// ` No tracks`.
pub fn music_list_panel_lines(app: &AppState) -> (r: Vec<StyledLine>)
    ensures
        list_lines_of(
            r@,
            app.auth_state,
            music_panel_entries(*app),
            app.selected_music_index,
            app.tick,
            "Loading tracks"@,
            " No tracks"@,
        ),
{
    if let Some(found) = &app.search_results {
        let names = found_lines(found);
        return list_lines(
            &app.auth_state,
            Some(&names),
            app.selected_music_index,
            app.tick,
            "Loading tracks",
            " No tracks",
        );
    }
    match app.shown_music_list() {
        Some(m) => {
            let names = track_lines(m);
            list_lines(
                &app.auth_state,
                Some(&names),
                app.selected_music_index,
                app.tick,
                "Loading tracks",
                " No tracks",
            )
        },
        None => list_lines(
            &app.auth_state,
            None,
            app.selected_music_index,
            app.tick,
            "Loading tracks",
            " No tracks",
        ),
    }
}

/// The number of the 20 cells of the progress bar that are filled.
pub open spec fn filled_cells(progress_ms: u64, duration_ms: u64) -> int {
    if duration_ms > 0 {
        (progress_ms * 20) / (duration_ms as int)
    } else {
        0
    }
}

/// The progress bar: 20 cells, the first `filled_cells` of them `█` and the
/// rest `░`.
pub open spec fn progress_bar_of(progress_ms: u64, duration_ms: u64) -> Seq<char> {
    Seq::new(20, |i: int| if i < filled_cells(progress_ms, duration_ms) { '█' } else { '░' })
}

/// The progress bar of a track that has played `progress_ms` of `duration_ms`.
pub fn progress_bar(progress_ms: u64, duration_ms: u64) -> (r: String)
    requires
        progress_ms * 20 <= u64::MAX,
    ensures
        r@ == progress_bar_of(progress_ms, duration_ms),
{
    let filled: u64 = if duration_ms > 0 {
        progress_ms * 20 / duration_ms
    } else {
        0
    };
    let mut s = String::new();
    let mut i: u64 = 0;
    while i < 20
        invariant
            i <= 20,
            filled == filled_cells(progress_ms, duration_ms),
            s@ == progress_bar_of(progress_ms, duration_ms).take(i as int),
        decreases 20 - i,
    {
        if i < filled {
            push_char(&mut s, '█');
        } else {
            push_char(&mut s, '░');
        }
        assert(progress_bar_of(progress_ms, duration_ms).take(i + 1) =~= progress_bar_of(
            progress_ms,
            duration_ms,
        ).take(i as int).push(progress_bar_of(progress_ms, duration_ms)[i as int]));
        i = i + 1;
    }
    assert(progress_bar_of(progress_ms, duration_ms).take(20) =~= progress_bar_of(progress_ms, duration_ms));
    s
}

/// The lines of the track information panel for the track `t`: its name,
/// artist and album, an empty line and the progress bar.
pub open spec fn track_lines_of(lines: Seq<StyledLine>, t: Track) -> bool {
    &&& lines.len() == 5
    &&& lines[0].text@ == " ♪  "@ + t.name@ && lines[0].style == LineStyle::Emphasis
    &&& lines[1].text@ == "    "@ + t.artist@ && lines[1].style == LineStyle::Normal
    &&& lines[2].text@ == "    "@ + t.album@ && lines[2].style == LineStyle::Muted
    &&& lines[3].text@ == Seq::<char>::empty() && lines[3].style == LineStyle::Plain
    &&& lines[4].text@ == "  "@ + progress_bar_of(t.progress_ms, t.duration_ms) && lines[4].style
        == LineStyle::Accent
}

/// The lines of the track information panel: the current track; `Loading`
/// while signed in and no track is known; otherwise ` Nothing playing`.
pub fn track_info_panel_lines(app: &AppState) -> (r: Vec<StyledLine>)
    requires
        app.current_track_info matches Some(t) ==> t.progress_ms * 20 <= u64::MAX,
    ensures
        match app.current_track_info {
            Some(t) => track_lines_of(r@, t),
            None => if app.auth_state is Authenticated {
                r@.len() == 1 && r@[0].text@ == spinner_text_of(app.tick, "Loading"@) && r@[0].style
                    == LineStyle::Loading
            } else {
                r@.len() == 1 && r@[0].text@ == " Nothing playing"@ && r@[0].style == LineStyle::Muted
            },
        },
{
    let mut out: Vec<StyledLine> = Vec::new();
    match &app.current_track_info {
        Some(t) => {
            let mut name = owned(" ♪  ");
            name.append(t.name.as_str());
            out.push(line(name, LineStyle::Emphasis));
            let mut artist = owned("    ");
            artist.append(t.artist.as_str());
            out.push(line(artist, LineStyle::Normal));
            let mut album = owned("    ");
            album.append(t.album.as_str());
            out.push(line(album, LineStyle::Muted));
            out.push(line(String::new(), LineStyle::Plain));
            let mut bar = owned("  ");
            let cells = progress_bar(t.progress_ms, t.duration_ms);
            bar.append(cells.as_str());
            out.push(line(bar, LineStyle::Accent));
        },
        None => {
            if let AuthState::Authenticated = app.auth_state {
                out.push(line(spinner_text(app.tick, "Loading"), LineStyle::Loading));
            } else {
                out.push(line(owned(" Nothing playing"), LineStyle::Muted));
            }
        },
    }
    out
}

/// The text of the search box: the query, or the placeholder `Search...`.
pub fn search_box_line(app: &AppState) -> (r: StyledLine)
    ensures
        match app.search {
            Some(q) => r.text == q && r.style == LineStyle::Normal,
            None => r.text@ == "Search..."@ && r.style == LineStyle::Muted,
        },
{
    match &app.search {
        Some(q) => line(q.clone(), LineStyle::Normal),
        None => line(owned("Search..."), LineStyle::Muted),
    }
}

/// The player controls, left to right: previous track, play/pause (`▶`
/// while playing, `⏸` while paused) and next track.
pub open spec fn player_controls_of(is_playing: bool) -> Seq<Seq<char>> {
    seq![
        "⏪ Previous"@,
        if is_playing {
            "▶ Play/Pause"@
        } else {
            "⏸ Play/Pause"@
        },
        "⏩ Next"@,
    ]
}

/// The labels of the player controls.
pub fn player_controls(app: &AppState) -> (r: Vec<String>)
    ensures
        r@.map_values(|s: String| s@) == player_controls_of(app.is_playing),
{
    let mut v: Vec<String> = Vec::new();
    v.push(owned("⏪ Previous"));
    if app.is_playing {
        v.push(owned("▶ Play/Pause"));
    } else {
        v.push(owned("⏸ Play/Pause"));
    }
    v.push(owned("⏩ Next"));
    assert(v@.map_values(|s: String| s@) =~= player_controls_of(app.is_playing));
    v
}

/// The lines shown while waiting for the user to grant access.
pub fn authenticating_lines() -> (r: Vec<StyledLine>)
    ensures
        lines_view(r@) == authenticating_page(),
{
    let mut v: Vec<StyledLine> = Vec::new();
    v.push(line(String::new(), LineStyle::Plain));
    v.push(line(owned("⏳ Waiting for authentication..."), LineStyle::Notice));
    v.push(line(String::new(), LineStyle::Plain));
    v.push(line(owned("╔══════════════════════════════╗"), LineStyle::Frame));
    v.push(line(owned("║  Press [c] to copy auth URL  ║"), LineStyle::FrameText));
    v.push(line(owned("║  Then paste it in browser    ║"), LineStyle::Frame));
    v.push(line(owned("╚══════════════════════════════╝"), LineStyle::Frame));
    v.push(line(String::new(), LineStyle::Plain));
    v.push(line(owned("URL ready to copy ✔"), LineStyle::Muted));
    assert(lines_view(v@) =~= authenticating_page());
    v
}

/// The lines shown before signing in.
pub fn sign_in_lines() -> (r: Vec<StyledLine>)
    ensures
        lines_view(r@) == sign_in_page(),
{
    let mut v: Vec<StyledLine> = Vec::new();
    v.push(line(String::new(), LineStyle::Plain));
    v.push(line(String::new(), LineStyle::Plain));
    v.push(line(owned("Auth Status: NotAuthenticated"), LineStyle::Alert));
    assert(lines_view(v@) =~= sign_in_page());
    v
}

} // verus!
