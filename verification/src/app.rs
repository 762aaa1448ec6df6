//! The state of the whole program and how it answers each event: the
//! user's keys, the results of background requests, the remote commands of
//! the control API and the ticks of the clock.
//!
//! Every answer is a change of state together with a list of effects: the
//! work outside the program (processes, requests, the browser, the
//! configuration file) that the caller performs, in order, and whose results
//! come back as new events.
use crate::i18n::{
    auth_error_text, fav_albums_loaded_text, fav_tracks_loaded_text, library_loaded_text,
    results_count_text, search_error_text, stream_error_text, tracks_loaded_text,
    browser_failed_text, browser_opened_text, lang_changed_text, loading_album_text, loading_stream_text, next_lang, quality_changed_text, searching_text,
    strings_of, Lang,
};
use crate::player::{
    can_seek_forward, initial_player, seek_backward_command, seek_forward_command,
    seek_to_command, seeked_backward, seeked_forward, seeked_to, stopped, toggle_command, toggled,
    volume_command, volume_lowered, volume_raised, volume_set, can_tick, ticked, Player,
    PlayerState, TrackInfo, NANOS_PER_SEC,
};
use crate::text::{
    cat2, cat3, decimal, decimal_string, has_prefix, pop_char, push_char, starts_with, to_uppercase,
    uppercase,
};
use crate::tidal::{error_text, joined_artist_names, quality_label, TidalError, track_views, Album, Artist, Quality, TrackView, CoverInfo, FavAlbum, Mix, Playlist, StreamInfo, TidalClient, Track};
use vstd::prelude::*;

verus! {

/// The settings kept between runs.
#[derive(Debug)]
pub struct AppConfig {
    pub lang: Lang,
}

impl Clone for AppConfig {
    fn clone(&self) -> (r: Self)
        ensures
            r == *self,
    {
        AppConfig { lang: self.lang }
    }
}

impl Default for AppConfig {
    /// Spanish.
    fn default() -> (r: Self)
        ensures
            r == (AppConfig { lang: Lang::Es }),
    {
        AppConfig { lang: Lang::Es }
    }
}

/// Whether keys move around the screens or edit the search query.
#[derive(Debug, Clone, Copy, PartialEq, Eq, Structural)]
pub enum InputMode {
    Normal,
    Search,
}

/// The screens.
#[derive(Debug, Clone, Copy, PartialEq, Eq, Structural)]
pub enum Tab {
    Search,
    Queue,
    Now,
    Library,
}

/// What the library screen lists: playlists and mixes, or favorite albums.
#[derive(Debug, Clone, Copy, PartialEq, Eq, Structural)]
pub enum CollectionView {
    Tracks,
    Albums,
}

/// Whether the queue repeats: not at all, the current track, or all of it.
#[derive(Debug, Clone, Copy, PartialEq, Eq, Structural)]
pub enum RepeatMode {
    Off,
    One,
    All,
}

impl Default for RepeatMode {
    /// The whole queue repeats.
    fn default() -> (r: Self)
        ensures
            r == RepeatMode::All,
    {
        RepeatMode::All
    }
}

/// A track given by the control API.
#[derive(Debug)]
pub struct ApiTrack {
    pub id: u64,
    pub title: String,
    pub artist: String,
    pub album: String,
    pub duration: u64,
}

/// A command of the control API or of the system's media keys.
pub enum ApiCommand {
    PlayPause,
    Next,
    Prev,
    VolumeUp,
    VolumeDown,
    VolumeSet(u8),
    SeekForward,
    SeekBackward,
    SeekTo(u64),
    PlayTrack(ApiTrack),
    ToggleShuffle,
    CycleRepeat,
}

/// A decoded picture.
#[verifier::external_type_specification]
#[verifier::external_body]
pub struct ExDynamicImage(image::DynamicImage);

/// The error of a picture that could not be decoded.
#[verifier::external_type_specification]
#[verifier::external_body]
pub struct ExImageError(image::ImageError);

/// What comes back from the work done outside the program.
#[allow(inconsistent_fields)]
pub enum AppEvent {
    SearchDone(Result<Vec<Track>, String>),
    StreamReady { track: Track, info: StreamInfo, queue_index: usize, generation: u64 },
    StreamError(String),
    AuthStarted { url: String, code: String, device_code: String },
    AuthDone,
    AuthError(String),
    StatusMsg(String),
    CoverReady { info: CoverInfo, image: image::DynamicImage },
    CoverError,
    LibraryLoaded { playlists: Vec<Playlist>, mixes: Vec<Mix> },
    PlaylistTracksLoaded(Vec<Track>),
    FavTracksLoaded(Vec<Track>),
    FavAlbumsLoaded(Vec<FavAlbum>),
    ApiCmd(ApiCommand),
}

/// A key the user pressed.
#[derive(Debug, Clone, Copy, PartialEq, Eq, Structural)]
pub enum Key {
    Char(char),
    Up,
    Down,
    Left,
    Right,
    Enter,
    Esc,
    Backspace,
    Tab,
    /// Control and C together.
    Interrupt,
    Other,
}

/// Work outside the program, for the caller to perform in order.
pub enum Effect {
    /// Send this JSON command, followed by a newline, to mpv's control
    /// socket, where it accepts a connection.
    PlayerCommand(String),
    /// Ask mpv to quit (`Player::quit_command`), wait 50 ms, end the audio
    /// process if there is one, and remove the control socket.
    StopPlayer,
    /// Remove a stale control socket and start the audio process on `url`:
    /// mpv with `Player::mpv_args`, else ffplay with `Player::ffplay_args`;
    /// then report the outcome to `Player::launched`.
    LaunchPlayer { url: String },
    /// Drop the picture prepared for the terminal from the cover.
    ClearCoverProtocol,
    /// Search the catalogue; answer with `SearchDone`.
    Search { query: String, limit: usize },
    /// Ask the stream of `track`; answer with `StreamReady` or `StreamError`.
    FetchStream { track: Track, queue_index: usize, generation: u64 },
    /// Ask the cover of a track and download it; answer with the event of
    /// `cover_event`, or with `CoverError`.
    FetchCover { track_id: u64 },
    /// Start a login; answer with `AuthStarted` or `AuthError`.
    StartLogin,
    /// Ask whether the login is done; answer with `AuthDone` if it is,
    /// with nothing if not, with `StatusMsg(poll_error_text(..))` on error.
    PollAuth { device_code: String },
    /// Load the user's playlists and mixes (each empty on error); answer
    /// with `LibraryLoaded`.
    LoadLibrary,
    /// Answer with `PlaylistTracksLoaded` or `StreamError`.
    LoadPlaylistTracks { uuid: String },
    /// Answer with `PlaylistTracksLoaded` or `StreamError`.
    LoadMixTracks { mix_id: String },
    /// Answer with `PlaylistTracksLoaded` or `StreamError`.
    LoadAlbumTracks { album_id: u64 },
    /// Answer with `FavTracksLoaded` or `StreamError`.
    LoadFavTracks,
    /// Answer with `FavAlbumsLoaded` or `StreamError`.
    LoadFavAlbums,
    /// Open `url` in the browser and report the outcome to
    /// `App::browser_result`.
    OpenBrowser { url: String },
    /// Write the settings to the configuration file.
    SaveConfig { config: AppConfig },
    /// Leave the main loop and restore the terminal.
    EndSession,
    /// End the process at once, with status 0.
    ExitProcess,
}

/// What the control API reports of the player.
pub struct ApiStatus {
    pub state: String,
    pub title: Option<String>,
    pub artist: Option<String>,
    pub album: Option<String>,
    pub duration: Option<u64>,
    pub elapsed: u64,
    pub volume: u8,
    pub bit_depth: Option<u32>,
    pub sample_rate: Option<u32>,
    pub codec: Option<String>,
    pub shuffle: bool,
    pub repeat: RepeatMode,
    pub authenticated: bool,
    pub queue: Vec<Track>,
    pub queue_index: Option<usize>,
}

/// The state of the program.
pub struct App {
    pub tidal: TidalClient,
    pub player: Player,
    pub input_mode: InputMode,
    pub active_tab: Tab,
    pub search_input: String,
    pub search_results: Vec<Track>,
    pub queue: Vec<Track>,
    pub selected: usize,
    pub queue_index: Option<usize>,
    pub authenticated: bool,
    pub status_msg: String,
    pub loading: bool,
    pub auto_advance: bool,
    pub device_code: Option<String>,
    pub user_code: Option<String>,
    pub auth_url: Option<String>,
    pub cover_info: Option<CoverInfo>,
    pub cover_image: Option<image::DynamicImage>,
    pub last_img_area: Option<(u16, u16)>,
    pub current_track_id: Option<u64>,
    pub stream_generation: u64,
    pub playlists: Vec<Playlist>,
    pub mixes: Vec<Mix>,
    pub library_selected: usize,
    pub fav_albums: Vec<FavAlbum>,
    pub fav_album_selected: usize,
    pub collection_view: CollectionView,
    pub lang: Lang,
    pub shuffle: bool,
    pub repeat: RepeatMode,
}

/// The screen that follows `t` when the user cycles through them.
pub open spec fn next_tab_of(t: Tab) -> Tab {
    match t {
        Tab::Search => Tab::Queue,
        Tab::Queue => Tab::Now,
        Tab::Now => Tab::Library,
        Tab::Library => Tab::Search,
    }
}

/// The repeat mode that follows `r` when the user cycles through them.
pub open spec fn next_repeat(r: RepeatMode) -> RepeatMode {
    match r {
        RepeatMode::All => RepeatMode::One,
        RepeatMode::One => RepeatMode::Off,
        RepeatMode::Off => RepeatMode::All,
    }
}

/// The name of a repeat mode in the control API.
pub open spec fn repeat_name(r: RepeatMode) -> Seq<char> {
    match r {
        RepeatMode::All => "all"@,
        RepeatMode::One => "one"@,
        RepeatMode::Off => "off"@,
    }
}

/// The position after `i` in a list of `len` entries, going round.
pub open spec fn step_down(i: int, len: int) -> int {
    if len > 0 {
        (i + 1) % len
    } else {
        i
    }
}

/// The position before `i` in a list of `len` entries, going round.
pub open spec fn step_up(i: int, len: int) -> int {
    if len > 0 {
        if i == 0 {
            len - 1
        } else {
            i - 1
        }
    } else {
        i
    }
}

/// The status line shown while the login is polled and the poll fails.
pub open spec fn poll_error_text(e: Seq<char>) -> Seq<char> {
    "Error poll: "@ + e
}

/// The status line after the shuffle was switched on or off.
pub open spec fn shuffle_text(on: bool) -> Seq<char> {
    if on {
        "Shuffle: on"@
    } else {
        "Shuffle: off"@
    }
}

/// Whether `i` is the first position in `q` of a track with identifier `id`.
pub open spec fn first_with_id(q: Seq<Track>, id: u64, i: int) -> bool {
    &&& 0 <= i < q.len()
    &&& q[i].id == id
    &&& forall|j: int| 0 <= j < i ==> q[j].id != id
}

/// Whether a track with identifier `id` is in `q`.
pub open spec fn has_id(q: Seq<Track>, id: u64) -> bool {
    exists|j: int| 0 <= j < q.len() && q[j].id == id
}

/// Where a track with identifier `id` is first in `queue`, or nothing.
pub fn position_of_id(queue: &Vec<Track>, id: u64) -> (r: Option<usize>)
    ensures
        match r {
            Some(i) => first_with_id(queue@, id, i as int),
            None => !has_id(queue@, id),
        },
{
    let mut i: usize = 0;
    while i < queue.len()
        invariant
            i <= queue.len(),
            forall|j: int| 0 <= j < i ==> queue@[j].id != id,
        decreases queue.len() - i,
    {
        if queue[i].id == id {
            return Some(i);
        }
        i = i + 1;
    }
    None
}

/// A reading of the system clock.
#[verifier::external_type_specification]
#[verifier::external_body]
pub struct ExSystemTime(std::time::SystemTime);

/// The error of a clock reading that comes before another.
#[verifier::external_type_specification]
#[verifier::external_body]
pub struct ExSystemTimeError(std::time::SystemTimeError);

/// Reads the system clock.
///
/// Calls `SystemTime::now`; nothing is claimed of the reading.
#[verifier::external_body]
fn system_now() -> (r: std::time::SystemTime) {
    std::time::SystemTime::now()
}

/// The time from the start of 1970 to `t`, or an error where `t` comes
/// before it.
///
/// Calls `SystemTime::duration_since` with `UNIX_EPOCH`; nothing is
/// claimed of the result, which depends on the clock.
#[verifier::external_body]
fn since_unix_epoch(t: &std::time::SystemTime) -> (r: Result<
    core::time::Duration,
    std::time::SystemTimeError,
>) {
    t.duration_since(std::time::UNIX_EPOCH)
}

/// The nanoseconds of `d` past its whole seconds.
///
/// Calls `Duration::subsec_nanos`, which std documents as always less than
/// one billion.
#[verifier::external_body]
fn subsec_nanos(d: &core::time::Duration) -> (r: u32)
    ensures
        r < 1_000_000_000,
{
    d.subsec_nanos()
}

/// The nanoseconds past the current second of the system clock, zero where
/// the clock is set before 1970.
fn clock_subsec_nanos() -> (r: u32)
    ensures
        r < 1_000_000_000,
{
    let now = system_now();
    match since_unix_epoch(&now) {
        Ok(d) => subsec_nanos(&d),
        Err(_) => 0,
    }
}

/// The seed of a shuffle: the clock's nanoseconds mixed, bit by bit, with
/// the elapsed nanoseconds of the current track (each taken as a `usize`).
pub open spec fn shuffle_seed(clock_nanos: u32, elapsed: u128) -> usize {
    (clock_nanos as usize) ^ (elapsed as usize)
}

/// The position a shuffle picks in a queue of `len` tracks from `seed`,
/// avoiding `current` where the queue has more than one track.
pub open spec fn shuffle_pick(seed: usize, len: int, current: Option<usize>) -> int {
    if len <= 1 {
        0
    } else if current == Some((seed % (len as usize)) as usize) {
        (seed % (len as usize) + 1) % len
    } else {
        (seed % (len as usize)) as int
    }
}

/// The value of a track given by the control API: no track number,
/// quality or explicit flag, one artist and the album, both with
/// identifier zero.
pub open spec fn api_track_view(t: ApiTrack) -> TrackView {
    TrackView {
        id: t.id,
        title: t.title,
        duration: t.duration,
        track_number: None,
        artists: seq![Artist { id: 0, name: t.artist }],
        album: Album { id: 0, title: t.album },
        audio_quality: None,
        explicit: None,
    }
}

/// Whether `post` and `effects` are `pre` after the stream of `track`, at
/// position `qi` of the queue, was asked for: the playback stopped, the
/// cover dropped, a new generation of stream begun, the state loading.
pub open spec fn stream_started(
    pre: App,
    post: App,
    track: TrackView,
    qi: usize,
    effects: Seq<Effect>,
) -> bool {
    &&& post == (App {
        auto_advance: false,
        stream_generation: (pre.stream_generation + 1) as u64,
        loading: true,
        status_msg: post.status_msg,
        cover_image: None,
        cover_info: None,
        player: stopped(pre.player),
        ..pre
    })
    &&& post.status_msg@ == loading_stream_text(pre.lang, track.title@)
    &&& effects.len() == 3
    &&& effects[0] == Effect::ClearCoverProtocol
    &&& effects[1] == Effect::StopPlayer
    &&& effects[2] matches Effect::FetchStream { track: t, queue_index: i, generation: g } && t@
        == track && i == qi && g == post.stream_generation
}

/// Whether the queue `after` is `before` with the track `t` added at its
/// end, unless a track with the same identifier is already in it.
pub open spec fn enqueued(before: Vec<Track>, after: Vec<Track>, t: TrackView) -> bool {
    if has_id(before@, t.id) {
        after == before
    } else {
        track_views(after@) == track_views(before@).push(t)
    }
}

/// Whether `post` and `effects` are `pre` after the track `t` was put in
/// the queue (unless one with its identifier is there) and the stream of
/// the first track in the queue with that identifier was asked for.
pub open spec fn enqueued_and_started(pre: App, post: App, t: TrackView, effects: Seq<Effect>) -> bool {
    &&& enqueued(pre.queue, post.queue, t)
    &&& exists|qi: usize|
        first_with_id(post.queue@, t.id, qi as int) && stream_started(
            App { queue: post.queue, ..pre },
            post,
            t,
            qi,
            effects,
        )
}

/// The status line once a track starts: its artists, its title, and its
/// bit depth, sample rate and codec (in upper case).
pub open spec fn now_playing_text(
    artists: Seq<char>,
    title: Seq<char>,
    bit_depth: u32,
    sample_rate: u32,
    codec: Seq<char>,
) -> Seq<char> {
    "▶ "@ + artists + " — "@ + title + " | "@ + decimal(bit_depth as nat) + "/"@ + decimal(
        sample_rate as nat,
    ) + " "@ + uppercase(codec)
}

/// The page opened for a login: the URL given, with `https://` in front
/// where it starts with neither `http://` nor `https://`.
pub open spec fn browser_url(url: Seq<char>) -> Seq<char> {
    if has_prefix(url, "http://"@) || has_prefix(url, "https://"@) {
        url
    } else {
        "https://"@ + url
    }
}

/// Whether `effects` is the one command `c` for mpv.
pub open spec fn one_command(effects: Seq<Effect>, c: Seq<char>) -> bool {
    &&& effects.len() == 1
    &&& effects[0] matches Effect::PlayerCommand(s) && s@ == c
}

/// Whether `post` and `effects` are `pre` after the command `cmd` at time
/// `now`.
pub open spec fn command_handled(
    pre: App,
    post: App,
    cmd: ApiCommand,
    now: u128,
    effects: Seq<Effect>,
) -> bool {
    match cmd {
        ApiCommand::PlayPause => {
            &&& post == (App { player: toggled(pre.player, now), ..pre })
            &&& match toggle_command(pre.player) {
                Some(c) => one_command(effects, c),
                None => effects.len() == 0,
            }
        },
        ApiCommand::Next => exists|n: u32|
            n < 1_000_000_000 && App::next_played(pre, post, n, effects),
        ApiCommand::Prev => App::prev_played(pre, post, effects),
        ApiCommand::VolumeUp => App::player_changed(
            pre,
            post,
            volume_raised(pre.player),
            volume_command(post.player.volume as nat),
            effects,
        ),
        ApiCommand::VolumeDown => App::player_changed(
            pre,
            post,
            volume_lowered(pre.player),
            volume_command(post.player.volume as nat),
            effects,
        ),
        ApiCommand::VolumeSet(v) => App::player_changed(
            pre,
            post,
            volume_set(pre.player, v),
            volume_command(post.player.volume as nat),
            effects,
        ),
        ApiCommand::SeekForward => App::player_changed(
            pre,
            post,
            seeked_forward(pre.player),
            seek_forward_command(),
            effects,
        ),
        ApiCommand::SeekBackward => App::player_changed(
            pre,
            post,
            seeked_backward(pre.player),
            seek_backward_command(),
            effects,
        ),
        ApiCommand::SeekTo(secs) => App::player_changed(
            pre,
            post,
            seeked_to(pre.player, secs),
            seek_to_command(secs as nat),
            effects,
        ),
        ApiCommand::ToggleShuffle => {
            &&& post == (App { shuffle: !pre.shuffle, status_msg: post.status_msg, ..pre })
            &&& post.status_msg@ == shuffle_text(!pre.shuffle)
            &&& effects.len() == 0
        },
        ApiCommand::CycleRepeat => {
            &&& post == (App {
                repeat: next_repeat(pre.repeat),
                status_msg: post.status_msg,
                ..pre
            })
            &&& post.status_msg@ == "Repeat: "@ + repeat_name(next_repeat(pre.repeat))
            &&& effects.len() == 0
        },
        ApiCommand::PlayTrack(t) => enqueued_and_started(pre, post, api_track_view(t), effects),
    }
}

/// Whether `pre` can take the event `event` within the machine's numbers:
/// the library's lists counted in a `usize`, and the commands that move in
/// the queue or seek within their bounds.
pub open spec fn can_handle(pre: App, event: AppEvent) -> bool {
    match event {
        AppEvent::LibraryLoaded { playlists, mixes } => playlists@.len() + mixes@.len()
            <= usize::MAX,
        AppEvent::ApiCmd(cmd) => match cmd {
            ApiCommand::Next => pre.can_play_next(),
            ApiCommand::Prev => pre.can_play_prev(),
            ApiCommand::PlayTrack(_) => pre.stream_generation < u64::MAX,
            ApiCommand::SeekForward => can_seek_forward(pre.player),
            _ => true,
        },
        _ => true,
    }
}

/// Whether `post` and `effects` are `pre` after the stream of `track` at
/// position `qi` came back as `info` for the generation `generation`, at
/// time `now`: an answer to an earlier request is ignored; otherwise the
/// track becomes current and playback starts.
pub open spec fn stream_ready_handled(
    pre: App,
    post: App,
    track: Track,
    info: StreamInfo,
    qi: usize,
    generation: u64,
    now: u128,
    effects: Seq<Effect>,
) -> bool {
    if generation != pre.stream_generation {
        post == pre && effects.len() == 0
    } else {
        &&& post == (App {
            queue_index: Some(qi),
            current_track_id: Some(track.id),
            status_msg: post.status_msg,
            player: post.player,
            loading: false,
            auto_advance: true,
            ..pre
        })
        &&& post.player == (Player {
            current: post.player.current,
            last_tick: Some(now),
            ..stopped(pre.player)
        })
        &&& post.player.current matches Some(ti) && ti.title == track.title && ti.artist@
            == joined_artist_names(track.artists@) && ti.album == track.album.title
            && ti.duration == track.duration && ti.bit_depth == info.bit_depth
            && ti.sample_rate == info.sample_rate && ti.codec == info.codec
        &&& post.status_msg@ == now_playing_text(
            joined_artist_names(track.artists@),
            track.title@,
            info.bit_depth,
            info.sample_rate,
            info.codec@,
        )
        &&& effects == seq![
            Effect::StopPlayer,
            Effect::LaunchPlayer { url: info.url },
            Effect::FetchCover { track_id: track.id },
        ]
    }
}

/// Whether `post` is `pre` with the status line `msg` and loading done.
pub open spec fn finished_loading(pre: App, post: App, msg: Seq<char>) -> bool {
    &&& post == (App { loading: false, status_msg: post.status_msg, ..pre })
    &&& post.status_msg@ == msg
}

/// Whether `post` and `effects` are `pre` after the event `event` at time
/// `now`.
pub open spec fn event_handled(
    pre: App,
    post: App,
    event: AppEvent,
    now: u128,
    effects: Seq<Effect>,
) -> bool {
    match event {
        AppEvent::SearchDone(Ok(results)) => {
            &&& post == (App {
                status_msg: post.status_msg,
                search_results: results,
                selected: 0,
                active_tab: Tab::Search,
                loading: false,
                ..pre
            })
            &&& post.status_msg@ == if results@.len() == 0 {
                strings_of(pre.lang).status_no_results@
            } else {
                results_count_text(pre.lang, results@.len())
            }
            &&& effects.len() == 0
        },
        AppEvent::SearchDone(Err(e)) => finished_loading(pre, post, search_error_text(pre.lang, e@))
            && effects.len() == 0,
        AppEvent::StreamReady { track, info, queue_index, generation } => stream_ready_handled(
            pre,
            post,
            track,
            info,
            queue_index,
            generation,
            now,
            effects,
        ),
        AppEvent::StreamError(e) => finished_loading(pre, post, stream_error_text(pre.lang, e@))
            && effects.len() == 0,
        AppEvent::AuthStarted { url, code, device_code } => {
            &&& post == (App {
                device_code: Some(device_code),
                user_code: Some(code),
                auth_url: Some(url),
                loading: false,
                ..pre
            })
            &&& effects.len() == 1
            &&& effects[0] matches Effect::OpenBrowser { url: u } && u@ == browser_url(url@)
        },
        AppEvent::AuthDone => {
            &&& post == (App {
                authenticated: true,
                device_code: None,
                user_code: None,
                auth_url: None,
                status_msg: post.status_msg,
                loading: false,
                ..pre
            })
            &&& post.status_msg@ == strings_of(pre.lang).status_auth_done@
            &&& effects.len() == 0
        },
        AppEvent::AuthError(e) => finished_loading(pre, post, auth_error_text(pre.lang, e@))
            && effects.len() == 0,
        AppEvent::StatusMsg(msg) => post == (App { status_msg: msg, ..pre }) && effects.len()
            == 0,
        AppEvent::CoverReady { info, image } => {
            &&& post == (App {
                cover_info: Some(info),
                cover_image: Some(image),
                last_img_area: None,
                ..pre
            })
            &&& effects == seq![Effect::ClearCoverProtocol]
        },
        AppEvent::CoverError => {
            &&& post == (App { cover_image: None, ..pre })
            &&& effects == seq![Effect::ClearCoverProtocol]
        },
        AppEvent::LibraryLoaded { playlists, mixes } => {
            &&& post == (App {
                playlists: playlists,
                mixes: mixes,
                active_tab: Tab::Library,
                loading: false,
                status_msg: post.status_msg,
                ..pre
            })
            &&& post.status_msg@ == library_loaded_text(
                pre.lang,
                playlists@.len(),
                mixes@.len(),
            )
            &&& effects.len() == 0
        },
        AppEvent::PlaylistTracksLoaded(tracks) => {
            &&& post == (App {
                queue: tracks,
                queue_index: None,
                selected: 0,
                active_tab: Tab::Queue,
                loading: false,
                status_msg: post.status_msg,
                ..pre
            })
            &&& post.status_msg@ == tracks_loaded_text(pre.lang, tracks@.len())
            &&& effects.len() == 0
        },
        AppEvent::FavTracksLoaded(tracks) => {
            &&& post == (App {
                queue: tracks,
                queue_index: None,
                selected: 0,
                active_tab: Tab::Queue,
                loading: false,
                status_msg: post.status_msg,
                ..pre
            })
            &&& post.status_msg@ == fav_tracks_loaded_text(pre.lang, tracks@.len())
            &&& effects.len() == 0
        },
        AppEvent::FavAlbumsLoaded(albums) => {
            &&& post == (App {
                fav_albums: albums,
                fav_album_selected: 0,
                collection_view: CollectionView::Albums,
                active_tab: Tab::Library,
                loading: false,
                status_msg: post.status_msg,
                ..pre
            })
            &&& post.status_msg@ == fav_albums_loaded_text(pre.lang, albums@.len())
            &&& effects.len() == 0
        },
        AppEvent::ApiCmd(cmd) => command_handled(pre, post, cmd, now, effects),
    }
}

/// Whether `post` is `pre` with the selection one entry further down,
/// going round: in the favorite albums or in the playlists and mixes on the
/// library screen, in the screen's list elsewhere.
pub open spec fn moved_down(pre: App, post: App) -> bool {
    if pre.active_tab == Tab::Library {
        if pre.collection_view == CollectionView::Albums {
            post == (App {
                fav_album_selected: step_down(
                    pre.fav_album_selected as int,
                    pre.fav_albums@.len() as int,
                ) as usize,
                ..pre
            })
        } else {
            post == (App {
                library_selected: step_down(
                    pre.library_selected as int,
                    (pre.playlists@.len() + pre.mixes@.len()) as int,
                ) as usize,
                ..pre
            })
        }
    } else {
        post == (App { selected: step_down(pre.selected as int, pre.list_len()) as usize, ..pre })
    }
}

/// Whether `post` is `pre` with the selection one entry further up, going
/// round (see `moved_down`).
pub open spec fn moved_up(pre: App, post: App) -> bool {
    if pre.active_tab == Tab::Library {
        if pre.collection_view == CollectionView::Albums {
            post == (App {
                fav_album_selected: step_up(
                    pre.fav_album_selected as int,
                    pre.fav_albums@.len() as int,
                ) as usize,
                ..pre
            })
        } else {
            post == (App {
                library_selected: step_up(
                    pre.library_selected as int,
                    (pre.playlists@.len() + pre.mixes@.len()) as int,
                ) as usize,
                ..pre
            })
        }
    } else {
        post == (App { selected: step_up(pre.selected as int, pre.list_len()) as usize, ..pre })
    }
}

/// Whether `pre` can take the key `key` in normal mode within the
/// machine's numbers (see `can_handle`).
pub open spec fn can_handle_normal_key(pre: App, key: Key) -> bool {
    match key {
        Key::Char(c) => {
            &&& c == 'n' ==> pre.can_play_next()
            &&& c == 'p' ==> pre.can_play_prev()
        },
        Key::Enter => pre.active_tab != Tab::Library ==> pre.can_play_selected(),
        Key::Right => can_seek_forward(pre.player),
        _ => true,
    }
}

/// Whether `post` and `effects` are `pre` after the key `key` in normal
/// mode at time `now`.
pub open spec fn normal_key_handled(
    pre: App,
    post: App,
    key: Key,
    now: u128,
    effects: Seq<Effect>,
) -> bool {
    match key {
        Key::Char(c) => if c == 'q' {
            &&& post == (App { player: stopped(pre.player), ..pre })
            &&& effects == seq![Effect::StopPlayer, Effect::ExitProcess]
        } else if c == '/' || c == 's' {
            &&& post == (App {
                input_mode: InputMode::Search,
                search_input: post.search_input,
                ..pre
            })
            &&& post.search_input@ == Seq::<char>::empty()
            &&& effects.len() == 0
        } else if c == 'l' || c == 'L' {
            if pre.authenticated {
                post == pre && effects.len() == 0
            } else {
                App::login_started(pre, post, effects)
            }
        } else if c == 'i' {
            App::authed_load(
                pre,
                post,
                effects,
                strings_of(pre.lang).status_loading_lib@,
                Effect::LoadLibrary,
            )
        } else if c == 'F' {
            App::authed_load(
                pre,
                post,
                effects,
                strings_of(pre.lang).status_loading_fav_tracks@,
                Effect::LoadFavTracks,
            )
        } else if c == 'A' {
            App::authed_load(
                pre,
                post,
                effects,
                strings_of(pre.lang).status_loading_fav_albums@,
                Effect::LoadFavAlbums,
            )
        } else if c == 'j' {
            moved_down(pre, post) && effects.len() == 0
        } else if c == 'k' {
            moved_up(pre, post) && effects.len() == 0
        } else if c == ' ' {
            &&& post == (App { player: toggled(pre.player, now), ..pre })
            &&& match toggle_command(pre.player) {
                Some(cmd) => one_command(effects, cmd),
                None => effects.len() == 0,
            }
        } else if c == 'n' {
            exists|n: u32| n < 1_000_000_000 && App::next_played(pre, post, n, effects)
        } else if c == 'p' {
            App::prev_played(pre, post, effects)
        } else if c == '+' || c == '=' {
            App::player_changed(
                pre,
                post,
                volume_raised(pre.player),
                volume_command(post.player.volume as nat),
                effects,
            )
        } else if c == '-' {
            App::player_changed(
                pre,
                post,
                volume_lowered(pre.player),
                volume_command(post.player.volume as nat),
                effects,
            )
        } else if c == '1' {
            App::quality_set(pre, post, Quality::HiResLossless) && effects.len() == 0
        } else if c == '2' {
            App::quality_set(pre, post, Quality::Lossless) && effects.len() == 0
        } else if c == '3' {
            App::quality_set(pre, post, Quality::High) && effects.len() == 0
        } else if c == '`' {
            App::lang_cycled(pre, post, effects)
        } else {
            post == pre && effects.len() == 0
        },
        Key::Down => moved_down(pre, post) && effects.len() == 0,
        Key::Up => moved_up(pre, post) && effects.len() == 0,
        Key::Enter => if pre.active_tab == Tab::Library {
            App::library_entered(pre, post, effects)
        } else {
            App::selected_played(pre, post, effects)
        },
        Key::Right => App::player_changed(
            pre,
            post,
            seeked_forward(pre.player),
            seek_forward_command(),
            effects,
        ),
        Key::Left => App::player_changed(
            pre,
            post,
            seeked_backward(pre.player),
            seek_backward_command(),
            effects,
        ),
        Key::Tab => App::tab_advanced(pre, post) && effects.len() == 0,
        _ => post == pre && effects.len() == 0,
    }
}

/// Whether `post` and `effects` are `pre` after the key `key` while the
/// query is typed: escape leaves the typing, enter leaves it and searches,
/// backspace removes the last character, a character is added.
pub open spec fn search_key_handled(pre: App, post: App, key: Key, effects: Seq<Effect>) -> bool {
    match key {
        Key::Esc => post == (App { input_mode: InputMode::Normal, ..pre }) && effects.len() == 0,
        Key::Enter => App::search_requested(
            App { input_mode: InputMode::Normal, ..pre },
            post,
            effects,
        ),
        Key::Backspace => {
            &&& post == (App { search_input: post.search_input, ..pre })
            &&& post.search_input@ == if pre.search_input@.len() == 0 {
                pre.search_input@
            } else {
                pre.search_input@.drop_last()
            }
            &&& effects.len() == 0
        },
        Key::Char(c) => {
            &&& post == (App { search_input: post.search_input, ..pre })
            &&& post.search_input@ == pre.search_input@.push(c)
            &&& effects.len() == 0
        },
        _ => post == pre && effects.len() == 0,
    }
}

/// Whether `post` and `effects` are `pre` after the key `key` at time
/// `now`: control-C stops playback and ends the session; other keys go by
/// the input mode.
pub open spec fn key_handled(pre: App, post: App, key: Key, now: u128, effects: Seq<Effect>) -> bool {
    if key == Key::Interrupt {
        &&& post == (App { player: stopped(pre.player), ..pre })
        &&& effects == seq![Effect::StopPlayer, Effect::EndSession]
    } else if pre.input_mode == InputMode::Normal {
        normal_key_handled(pre, post, key, now, effects)
    } else {
        search_key_handled(pre, post, key, effects)
    }
}

/// Whether `pre` can take the key `key` within the machine's numbers.
pub open spec fn can_handle_key(pre: App, key: Key) -> bool {
    key != Key::Interrupt && pre.input_mode == InputMode::Normal ==> can_handle_normal_key(pre, key)
}

/// Decodes a picture, guessing its format from its first bytes.
///
/// Calls `image::load_from_memory`. Whether it succeeds depends on the
/// bytes and also on the format-detection and decoding hooks that any code
/// in the process may register with `image::hooks`, so nothing is claimed
/// of the outcome.
#[verifier::external_body]
fn load_from_memory(bytes: &[u8]) -> (r: Result<image::DynamicImage, image::ImageError>) {
    image::load_from_memory(bytes)
}

/// The event that a decoded cover makes: the picture with the cover `info`
/// where it decoded, an error otherwise.
pub fn cover_event_from(info: CoverInfo, decoded: Result<image::DynamicImage, image::ImageError>) -> (e:
    AppEvent)
    ensures
        match decoded {
            Ok(img) => e == (AppEvent::CoverReady { info, image: img }),
            Err(_) => e is CoverError,
        },
{
    match decoded {
        Ok(image) => AppEvent::CoverReady { info, image },
        Err(_) => AppEvent::CoverError,
    }
}

/// The event that the downloaded cover `bytes` of the cover `info` make:
/// the decoded picture with `info` where the bytes decode, an error
/// otherwise (see `cover_event_from`).
pub fn cover_event(info: CoverInfo, bytes: &[u8]) -> (e: AppEvent)
    ensures
        (e matches AppEvent::CoverReady { info: i, .. } && i == info) || e is CoverError,
{
    let decoded = load_from_memory(bytes);
    cover_event_from(info, decoded)
}

/// The event that the answer to a stream request makes: the stream of
/// `track` at `queue_index` for the generation `generation`, or the
/// error's text.
pub fn stream_event(
    track: Track,
    queue_index: usize,
    generation: u64,
    answer: Result<StreamInfo, TidalError>,
) -> (e: AppEvent)
    ensures
        match answer {
            Ok(info) => e == (AppEvent::StreamReady { track, info, queue_index, generation }),
            Err(err) => e matches AppEvent::StreamError(s) && s@ == error_text(err),
        },
{
    match answer {
        Ok(info) => AppEvent::StreamReady { track, info, queue_index, generation },
        Err(err) => AppEvent::StreamError(err.message()),
    }
}

/// The event that the answer to a login poll makes: `AuthDone` where the
/// login is done, nothing where it is not, the error's text otherwise.
pub fn poll_event(answer: Result<bool, TidalError>) -> (e: Option<AppEvent>)
    ensures
        match answer {
            Ok(true) => e == Some(AppEvent::AuthDone),
            Ok(false) => e.is_none(),
            Err(err) => e matches Some(AppEvent::StatusMsg(s)) && s@ == poll_error_text(
                error_text(err),
            ),
        },
{
    match answer {
        Ok(true) => Some(AppEvent::AuthDone),
        Ok(false) => None,
        Err(err) => {
            let text = err.message();
            Some(AppEvent::StatusMsg(cat2("Error poll: ", text.as_str())))
        },
    }
}

/// A copy of a list of tracks, track by track.
pub fn clone_tracks(v: &Vec<Track>) -> (r: Vec<Track>)
    ensures
        track_views(r@) == track_views(v@),
{
    let mut r: Vec<Track> = Vec::new();
    let mut i: usize = 0;
    while i < v.len()
        invariant
            i <= v.len(),
            r@.len() == i,
            forall|j: int| 0 <= j < i ==> #[trigger] r@[j]@ == v@[j]@,
        decreases v.len() - i,
    {
        r.push(v[i].clone());
        i = i + 1;
    }
    assert(track_views(r@) =~= track_views(v@));
    r
}

/// The name of a playback state in the control API.
pub open spec fn state_name(s: PlayerState) -> Seq<char> {
    match s {
        PlayerState::Playing => "playing"@,
        PlayerState::Paused => "paused"@,
        PlayerState::Stopped => "stopped"@,
    }
}

impl App {
    /// What every state of the program keeps: the player's invariant, the
    /// list positions below the largest `usize` (so that one more fits), and
    /// the library's two lists counted within a `usize`.
    pub open spec fn inv(&self) -> bool {
        &&& self.player.wf()
        &&& self.selected < usize::MAX
        &&& self.library_selected < usize::MAX
        &&& self.fav_album_selected < usize::MAX
        &&& self.playlists@.len() + self.mixes@.len() <= usize::MAX
    }

    /// The number of entries of the list the current screen shows.
    pub open spec fn list_len(&self) -> int {
        match self.active_tab {
            Tab::Search => self.search_results@.len() as int,
            Tab::Queue => self.queue@.len() as int,
            Tab::Now => 0,
            Tab::Library => (self.playlists@.len() + self.mixes@.len()) as int,
        }
    }

    /// Whether `post` is `pre` on the next screen, going round, with the
    /// selection at the top; leaving the library shows its playlists and
    /// mixes again next time.
    pub open spec fn tab_advanced(pre: App, post: App) -> bool {
        post == (App {
            active_tab: next_tab_of(pre.active_tab),
            selected: 0,
            collection_view: if pre.active_tab == Tab::Library {
                CollectionView::Tracks
            } else {
                pre.collection_view
            },
            ..pre
        })
    }

    /// Whether `post` is `pre` with streams asked in quality `q`, saying so.
    pub open spec fn quality_set(pre: App, post: App, q: Quality) -> bool {
        &&& post == (App {
            tidal: TidalClient { quality: q, ..pre.tidal },
            status_msg: post.status_msg,
            ..pre
        })
        &&& post.status_msg@ == quality_changed_text(pre.lang, quality_label(q))
    }

    /// Whether `post` and `effects` are `pre` in the next language, saying
    /// so in it, and saving it in the settings.
    pub open spec fn lang_cycled(pre: App, post: App, effects: Seq<Effect>) -> bool {
        &&& post == (App { lang: next_lang(pre.lang), status_msg: post.status_msg, ..pre })
        &&& post.status_msg@ == lang_changed_text(next_lang(pre.lang))
        &&& effects == seq![Effect::SaveConfig { config: AppConfig { lang: next_lang(pre.lang) } }]
    }

    /// Whether `post` and `effects` are `pre` starting a login.
    pub open spec fn login_started(pre: App, post: App, effects: Seq<Effect>) -> bool {
        &&& App::began_loading(pre, post, strings_of(pre.lang).status_starting_login@)
        &&& effects == seq![Effect::StartLogin]
    }

    /// Whether `post` and `effects` are `pre` loading with the status line
    /// `msg` by the request `request`, where the user is logged in, and
    /// `pre` unchanged otherwise.
    pub open spec fn authed_load(
        pre: App,
        post: App,
        effects: Seq<Effect>,
        msg: Seq<char>,
        request: Effect,
    ) -> bool {
        if pre.authenticated {
            App::began_loading(pre, post, msg) && effects == seq![request]
        } else {
            post == pre && effects.len() == 0
        }
    }

    /// Whether `post` and `effects` are `pre` after the query typed was
    /// searched: a login is asked for where the user is not logged in;
    /// nothing happens where the query is empty; else the search of the
    /// query, with at most 20 results, starts.
    pub open spec fn search_requested(pre: App, post: App, effects: Seq<Effect>) -> bool {
        if !pre.authenticated {
            &&& post == (App { status_msg: post.status_msg, ..pre })
            &&& post.status_msg@ == strings_of(pre.lang).status_login_required@
            &&& effects.len() == 0
        } else if pre.search_input@.len() == 0 {
            post == pre && effects.len() == 0
        } else {
            &&& App::began_loading(pre, post, searching_text(pre.lang, pre.search_input@))
            &&& effects == seq![Effect::Search { query: pre.search_input, limit: 20 }]
        }
    }

    /// Whether `post` and `effects` are `pre` with its player changed to
    /// `player` and the command `c` for mpv.
    pub open spec fn player_changed(
        pre: App,
        post: App,
        player: Player,
        c: Seq<char>,
        effects: Seq<Effect>,
    ) -> bool {
        post == (App { player, ..pre }) && one_command(effects, c)
    }

    /// The program at its start: on the search screen, nothing loaded,
    /// nothing playing, not logged in, in the configured language, with the
    /// whole queue repeating and no shuffle.
    pub fn new(config: AppConfig, tidal: TidalClient) -> (r: Self)
        ensures
            r.inv(),
            r.tidal == tidal,
            r.player == initial_player(),
            r.input_mode == InputMode::Normal,
            r.active_tab == Tab::Search,
            r.search_input@ == Seq::<char>::empty(),
            r.search_results@ == Seq::<Track>::empty(),
            r.queue@ == Seq::<Track>::empty(),
            r.selected == 0,
            r.queue_index.is_none(),
            !r.authenticated,
            r.status_msg@ == Seq::<char>::empty(),
            !r.loading,
            !r.auto_advance,
            r.device_code.is_none(),
            r.user_code.is_none(),
            r.auth_url.is_none(),
            r.cover_info.is_none(),
            r.cover_image.is_none(),
            r.last_img_area.is_none(),
            r.current_track_id.is_none(),
            r.stream_generation == 0,
            r.playlists@ == Seq::<Playlist>::empty(),
            r.mixes@ == Seq::<Mix>::empty(),
            r.library_selected == 0,
            r.fav_albums@ == Seq::<FavAlbum>::empty(),
            r.fav_album_selected == 0,
            r.collection_view == CollectionView::Tracks,
            r.lang == config.lang,
            !r.shuffle,
            r.repeat == RepeatMode::All,
    {
        App {
            tidal,
            player: Player::new(),
            input_mode: InputMode::Normal,
            active_tab: Tab::Search,
            search_input: String::new(),
            search_results: Vec::new(),
            queue: Vec::new(),
            selected: 0,
            queue_index: None,
            authenticated: false,
            status_msg: String::new(),
            loading: false,
            auto_advance: false,
            device_code: None,
            user_code: None,
            auth_url: None,
            cover_info: None,
            cover_image: None,
            last_img_area: None,
            current_track_id: None,
            stream_generation: 0,
            playlists: Vec::new(),
            mixes: Vec::new(),
            library_selected: 0,
            fav_albums: Vec::new(),
            fav_album_selected: 0,
            collection_view: CollectionView::Tracks,
            lang: config.lang,
            shuffle: false,
            repeat: RepeatMode::All,
        }
    }

    /// Moves to the next screen, going round; leaving the library shows its
    /// playlists and mixes again next time. The selection goes back to the
    /// top.
    pub fn next_tab(&mut self)
        requires
            old(self).inv(),
        ensures
            final(self).inv(),
            App::tab_advanced(*old(self), *final(self)),
    {
        self.active_tab = match self.active_tab {
            Tab::Search => Tab::Queue,
            Tab::Queue => Tab::Now,
            Tab::Now => Tab::Library,
            Tab::Library => {
                self.collection_view = CollectionView::Tracks;
                Tab::Search
            },
        };
        self.selected = 0;
    }

    /// The number of entries of the list the current screen shows.
    pub fn current_list_len(&self) -> (r: usize)
        requires
            self.inv(),
        ensures
            r == self.list_len(),
    {
        match self.active_tab {
            Tab::Search => self.search_results.len(),
            Tab::Queue => self.queue.len(),
            Tab::Now => 0,
            Tab::Library => self.playlists.len() + self.mixes.len(),
        }
    }

    /// Selects the entry below, going round to the top.
    pub fn next_track(&mut self)
        requires
            old(self).inv(),
        ensures
            final(self).inv(),
            *final(self) == (App {
                selected: step_down(old(self).selected as int, old(self).list_len()) as usize,
                ..*old(self)
            }),
    {
        let len = self.current_list_len();
        if len > 0 {
            self.selected = (self.selected + 1) % len;
        }
    }

    /// Selects the entry above, going round to the bottom.
    pub fn prev_track(&mut self)
        requires
            old(self).inv(),
        ensures
            final(self).inv(),
            *final(self) == (App {
                selected: step_up(old(self).selected as int, old(self).list_len()) as usize,
                ..*old(self)
            }),
    {
        let len = self.current_list_len();
        if len > 0 {
            self.selected = if self.selected == 0 {
                len - 1
            } else {
                self.selected - 1
            };
        }
    }

    /// Sets the quality streams are asked in, and says so.
    pub fn set_quality(&mut self, q: Quality)
        requires
            old(self).inv(),
        ensures
            final(self).inv(),
            App::quality_set(*old(self), *final(self), q),
    {
        self.tidal.quality = q;
        self.status_msg = self.lang.quality_changed(q.label());
    }

    /// Switches to the next language, going round, says so in the new one,
    /// and saves it in the settings.
    pub fn cycle_lang(&mut self) -> (effects: Vec<Effect>)
        requires
            old(self).inv(),
        ensures
            final(self).inv(),
            App::lang_cycled(*old(self), *final(self), effects@),
    {
        self.lang = self.lang.cycle();
        self.status_msg = self.lang.lang_changed();
        let mut effects = Vec::new();
        effects.push(Effect::SaveConfig { config: AppConfig { lang: self.lang } });
        effects
    }

    /// Whether `post` is `pre` loading, with the status line `msg`.
    pub open spec fn began_loading(pre: App, post: App, msg: Seq<char>) -> bool {
        &&& post == (App { loading: true, status_msg: post.status_msg, ..pre })
        &&& post.status_msg@ == msg
    }

    fn begin_loading(&mut self, msg: String)
        requires
            old(self).inv(),
        ensures
            final(self).inv(),
            App::began_loading(*old(self), *final(self), msg@),
    {
        self.loading = true;
        self.status_msg = msg;
    }

    /// Starts a login.
    pub fn start_login_bg(&mut self) -> (effects: Vec<Effect>)
        requires
            old(self).inv(),
        ensures
            final(self).inv(),
            App::login_started(*old(self), *final(self), effects@),
    {
        let msg = String::from_str(self.lang.strings().status_starting_login);
        self.begin_loading(msg);
        let mut effects = Vec::new();
        effects.push(Effect::StartLogin);
        effects
    }

    /// Asks whether the login is done, with the device code of the login
    /// (empty where there is none).
    pub fn poll_auth_bg(&self) -> (effects: Vec<Effect>)
        ensures
            effects@.len() == 1,
            effects@[0] matches Effect::PollAuth { device_code } && match self.device_code {
                Some(c) => device_code == c,
                None => device_code@ == Seq::<char>::empty(),
            },
    {
        let device_code = match &self.device_code {
            Some(c) => c.clone(),
            None => String::new(),
        };
        let mut effects = Vec::new();
        effects.push(Effect::PollAuth { device_code });
        effects
    }

    /// Loads the library of a logged-in user; does nothing otherwise.
    pub fn load_library_bg(&mut self) -> (effects: Vec<Effect>)
        requires
            old(self).inv(),
        ensures
            final(self).inv(),
            App::authed_load(
                *old(self),
                *final(self),
                effects@,
                strings_of(old(self).lang).status_loading_lib@,
                Effect::LoadLibrary,
            ),
    {
        let mut effects = Vec::new();
        if !self.authenticated {
            return effects;
        }
        let msg = String::from_str(self.lang.strings().status_loading_lib);
        self.begin_loading(msg);
        effects.push(Effect::LoadLibrary);
        effects
    }

    /// Loads the tracks of the playlist `uuid`.
    pub fn load_playlist_tracks_bg(&mut self, uuid: String) -> (effects: Vec<Effect>)
        requires
            old(self).inv(),
        ensures
            final(self).inv(),
            App::began_loading(
                *old(self),
                *final(self),
                strings_of(old(self).lang).status_loading_playlist@,
            ),
            effects@ == seq![Effect::LoadPlaylistTracks { uuid }],
    {
        let msg = String::from_str(self.lang.strings().status_loading_playlist);
        self.begin_loading(msg);
        let mut effects = Vec::new();
        effects.push(Effect::LoadPlaylistTracks { uuid });
        effects
    }

    /// Loads the tracks of the mix `mix_id`.
    pub fn load_mix_tracks_bg(&mut self, mix_id: String) -> (effects: Vec<Effect>)
        requires
            old(self).inv(),
        ensures
            final(self).inv(),
            App::began_loading(
                *old(self),
                *final(self),
                strings_of(old(self).lang).status_loading_mix@,
            ),
            effects@ == seq![Effect::LoadMixTracks { mix_id }],
    {
        let msg = String::from_str(self.lang.strings().status_loading_mix);
        self.begin_loading(msg);
        let mut effects = Vec::new();
        effects.push(Effect::LoadMixTracks { mix_id });
        effects
    }

    /// Loads the tracks of the album `album_id`, named `album_title`.
    pub fn load_album_tracks_bg(&mut self, album_id: u64, album_title: String) -> (effects: Vec<
        Effect,
    >)
        requires
            old(self).inv(),
        ensures
            final(self).inv(),
            App::began_loading(
                *old(self),
                *final(self),
                loading_album_text(old(self).lang, album_title@),
            ),
            effects@ == seq![Effect::LoadAlbumTracks { album_id }],
    {
        let msg = self.lang.loading_album(album_title.as_str());
        self.begin_loading(msg);
        let mut effects = Vec::new();
        effects.push(Effect::LoadAlbumTracks { album_id });
        effects
    }

    /// Loads the favorite tracks of a logged-in user; does nothing
    /// otherwise.
    pub fn load_fav_tracks_bg(&mut self) -> (effects: Vec<Effect>)
        requires
            old(self).inv(),
        ensures
            final(self).inv(),
            App::authed_load(
                *old(self),
                *final(self),
                effects@,
                strings_of(old(self).lang).status_loading_fav_tracks@,
                Effect::LoadFavTracks,
            ),
    {
        let mut effects = Vec::new();
        if !self.authenticated {
            return effects;
        }
        let msg = String::from_str(self.lang.strings().status_loading_fav_tracks);
        self.begin_loading(msg);
        effects.push(Effect::LoadFavTracks);
        effects
    }

    /// Loads the favorite albums of a logged-in user; does nothing
    /// otherwise.
    pub fn load_fav_albums_bg(&mut self) -> (effects: Vec<Effect>)
        requires
            old(self).inv(),
        ensures
            final(self).inv(),
            App::authed_load(
                *old(self),
                *final(self),
                effects@,
                strings_of(old(self).lang).status_loading_fav_albums@,
                Effect::LoadFavAlbums,
            ),
    {
        let mut effects = Vec::new();
        if !self.authenticated {
            return effects;
        }
        let msg = String::from_str(self.lang.strings().status_loading_fav_albums);
        self.begin_loading(msg);
        effects.push(Effect::LoadFavAlbums);
        effects
    }

    /// Searches the query typed, where the user is logged in and the query
    /// is not empty; asks for a login where the user is not.
    pub fn do_search_bg(&mut self) -> (effects: Vec<Effect>)
        requires
            old(self).inv(),
        ensures
            final(self).inv(),
            App::search_requested(*old(self), *final(self), effects@),
    {
        let mut effects = Vec::new();
        if !self.authenticated {
            self.status_msg = String::from_str(self.lang.strings().status_login_required);
            return effects;
        }
        if self.search_input.as_str().is_empty() {
            return effects;
        }
        let msg = self.lang.searching(self.search_input.as_str());
        self.begin_loading(msg);
        effects.push(Effect::Search { query: self.search_input.clone(), limit: 20 });
        effects
    }

    /// The position the next track is taken from, or nothing where no
    /// track follows: with the queue empty nothing; repeating one track,
    /// the current position (the first where there is none); shuffling, the
    /// pick of `seed`; else the position after the current one, or, at the
    /// end of the queue (or with no current position), the first unless the
    /// queue does not repeat.
    pub open spec fn next_target(&self, seed: usize) -> Option<usize> {
        let len = self.queue@.len();
        if len == 0 {
            None
        } else if self.repeat == RepeatMode::One {
            Some(
                match self.queue_index {
                    Some(i) => i,
                    None => 0,
                },
            )
        } else if self.shuffle {
            Some(shuffle_pick(seed, len as int, self.queue_index) as usize)
        } else {
            match self.queue_index {
                Some(i) if i + 1 < len => Some((i + 1) as usize),
                _ => if self.repeat == RepeatMode::Off {
                    None
                } else {
                    Some(0)
                },
            }
        }
    }

    /// Whether moving to the next track keeps within the machine's numbers
    /// and the queue: the current position is in the queue where one track
    /// repeats, it has a successor in `usize` where it is stepped from, and
    /// a new generation of stream fits in a `u64`.
    pub open spec fn can_play_next(&self) -> bool {
        self.queue@.len() > 0 ==> {
            &&& self.repeat == RepeatMode::One ==> match self.queue_index {
                Some(i) => i < self.queue@.len(),
                None => true,
            }
            &&& self.repeat != RepeatMode::One && !self.shuffle ==> match self.queue_index {
                Some(i) => i < usize::MAX,
                None => true,
            }
            &&& self.moves_on() ==> self.stream_generation < u64::MAX
        }
    }

    /// Whether, with a non-empty queue, moving to the next track plays one:
    /// always, except without repeat or shuffle at the end of the queue (or
    /// with no current position).
    pub open spec fn moves_on(&self) -> bool {
        ||| self.repeat != RepeatMode::Off
        ||| self.shuffle
        ||| match self.queue_index {
            Some(i) => i + 1 < self.queue@.len(),
            None => false,
        }
    }

    /// Whether `post` and `effects` are `pre` after it moved to the next
    /// track with the clock's nanoseconds `clock_nanos`.
    pub open spec fn next_played(pre: App, post: App, clock_nanos: u32, effects: Seq<Effect>) -> bool {
        match pre.next_target(shuffle_seed(clock_nanos, pre.player.elapsed)) {
            None => post == pre && effects.len() == 0,
            Some(i) => stream_started(pre, post, pre.queue@[i as int]@, i, effects),
        }
    }

    /// The position the previous track is taken from, or nothing where the
    /// queue is empty: the position before the current one, or the last
    /// where there is none before it.
    pub open spec fn prev_target(&self) -> Option<usize> {
        let len = self.queue@.len();
        if len == 0 {
            None
        } else {
            match self.queue_index {
                Some(i) if i > 0 => Some((i - 1) as usize),
                _ => Some((len - 1) as usize),
            }
        }
    }

    /// Whether moving to the previous track stays in the queue and a new
    /// generation of stream fits in a `u64`.
    pub open spec fn can_play_prev(&self) -> bool {
        self.queue@.len() > 0 ==> {
            &&& match self.queue_index {
                Some(i) => i > 0 ==> i - 1 < self.queue@.len(),
                None => true,
            }
            &&& self.stream_generation < u64::MAX
        }
    }

    /// Whether `post` and `effects` are `pre` after it moved to the
    /// previous track.
    pub open spec fn prev_played(pre: App, post: App, effects: Seq<Effect>) -> bool {
        match pre.prev_target() {
            None => post == pre && effects.len() == 0,
            Some(i) => stream_started(pre, post, pre.queue@[i as int]@, i, effects),
        }
    }

    /// Asks the stream of `track`, which is at `queue_index` in the queue:
    /// stops playback, drops the cover and starts a new generation of
    /// stream, so that the answers to earlier requests are ignored.
    fn stream_track_bg(&mut self, track: Track, queue_index: usize) -> (effects: Vec<Effect>)
        requires
            old(self).inv(),
            old(self).stream_generation < u64::MAX,
        ensures
            final(self).inv(),
            stream_started(*old(self), *final(self), track@, queue_index, effects@),
    {
        self.auto_advance = false;
        self.stream_generation = self.stream_generation + 1;
        let generation = self.stream_generation;
        let msg = self.lang.loading_stream(track.title.as_str());
        self.loading = true;
        self.status_msg = msg;
        self.cover_image = None;
        self.cover_info = None;
        let mut effects = Vec::new();
        effects.push(Effect::ClearCoverProtocol);
        self.player.stop();
        effects.push(Effect::StopPlayer);
        effects.push(Effect::FetchStream { track, queue_index, generation });
        effects
    }

    /// The position a shuffle picks from the clock's nanoseconds
    /// `clock_nanos`: the seed taken modulo the length of the queue, or the
    /// position after it where that is the current one; zero where the
    /// queue has at most one track.
    pub fn random_queue_index(&self, clock_nanos: u32) -> (r: usize)
        ensures
            r == shuffle_pick(
                shuffle_seed(clock_nanos, self.player.elapsed),
                self.queue@.len() as int,
                self.queue_index,
            ),
    {
        let seed = (clock_nanos as usize) ^ (self.player.elapsed as usize);
        let len = self.queue.len();
        if len <= 1 {
            return 0;
        }
        let candidate = seed % len;
        if self.queue_index == Some(candidate) {
            (candidate + 1) % len
        } else {
            candidate
        }
    }

    /// Moves to the next track (see `next_target`), the shuffle seeded by
    /// the clock's nanoseconds `clock_nanos`.
    pub fn play_next_with(&mut self, clock_nanos: u32) -> (effects: Vec<Effect>)
        requires
            old(self).inv(),
            old(self).can_play_next(),
        ensures
            final(self).inv(),
            App::next_played(*old(self), *final(self), clock_nanos, effects@),
    {
        if self.queue.len() == 0 {
            return Vec::new();
        }
        let next = if self.repeat == RepeatMode::One {
            match self.queue_index {
                Some(i) => i,
                None => 0,
            }
        } else if self.shuffle {
            self.random_queue_index(clock_nanos)
        } else {
            match self.queue_index {
                Some(i) if i + 1 < self.queue.len() => i + 1,
                _ => {
                    if self.repeat == RepeatMode::Off {
                        return Vec::new();
                    }
                    0
                },
            }
        };
        let track = self.queue[next].clone();
        self.stream_track_bg(track, next)
    }

    /// Moves to the next track (see `next_target`), the shuffle seeded by
    /// the system clock.
    pub fn play_next_bg(&mut self) -> (effects: Vec<Effect>)
        requires
            old(self).inv(),
            old(self).can_play_next(),
        ensures
            final(self).inv(),
            exists|n: u32| n < 1_000_000_000 && App::next_played(*old(self), *final(self), n, effects@),
    {
        let n = clock_subsec_nanos();
        self.play_next_with(n)
    }

    /// Moves to the previous track (see `prev_target`).
    pub fn play_prev_bg(&mut self) -> (effects: Vec<Effect>)
        requires
            old(self).inv(),
            old(self).can_play_prev(),
        ensures
            final(self).inv(),
            App::prev_played(*old(self), *final(self), effects@),
    {
        if self.queue.len() == 0 {
            return Vec::new();
        }
        let prev = match self.queue_index {
            Some(i) if i > 0 => i - 1,
            _ => self.queue.len() - 1,
        };
        let track = self.queue[prev].clone();
        self.stream_track_bg(track, prev)
    }

    /// Puts `track` in the queue, unless a track with its identifier is
    /// there, and asks the stream of the first track with that identifier.
    fn enqueue_and_stream(&mut self, track: Track) -> (effects: Vec<Effect>)
        requires
            old(self).inv(),
            old(self).stream_generation < u64::MAX,
        ensures
            final(self).inv(),
            enqueued_and_started(*old(self), *final(self), track@, effects@),
    {
        let ghost pre = *self;
        let found = position_of_id(&self.queue, track.id);
        if found.is_none() {
            self.queue.push(track.clone());
            assert(track_views(self.queue@) =~= track_views(pre.queue@).push(track@));
        }
        let qi = match position_of_id(&self.queue, track.id) {
            Some(i) => i,
            None => {
                assert(self.queue@[self.queue@.len() - 1].id == track.id);
                0
            },
        };
        let ghost mid = *self;
        assert(mid == App { queue: mid.queue, ..pre });
        let effects = self.stream_track_bg(track, qi);
        assert(first_with_id(final(self).queue@, track@.id, qi as int));
        effects
    }

    /// The track the selection points at, on the search and queue screens.
    pub open spec fn selected_track(&self) -> Option<Track> {
        match self.active_tab {
            Tab::Search => if self.selected < self.search_results@.len() {
                Some(self.search_results@[self.selected as int])
            } else {
                None
            },
            Tab::Queue => if self.selected < self.queue@.len() {
                Some(self.queue@[self.selected as int])
            } else {
                None
            },
            _ => None,
        }
    }

    /// Whether a new generation of stream fits in a `u64` where playing the
    /// selection asks for one.
    pub open spec fn can_play_selected(&self) -> bool {
        self.authenticated && self.selected_track().is_some() ==> self.stream_generation
            < u64::MAX
    }

    /// Whether `post` and `effects` are `pre` after the selected track was
    /// played: a login is asked for where the user is not logged in; a
    /// search result goes into the queue first; a track of the queue plays
    /// from its position.
    pub open spec fn selected_played(pre: App, post: App, effects: Seq<Effect>) -> bool {
        if !pre.authenticated {
            &&& post == (App { status_msg: post.status_msg, ..pre })
            &&& post.status_msg@ == strings_of(pre.lang).status_login_required_short@
            &&& effects.len() == 0
        } else {
            match pre.selected_track() {
                None => post == pre && effects.len() == 0,
                Some(t) => if pre.active_tab == Tab::Search {
                    enqueued_and_started(pre, post, t@, effects)
                } else {
                    stream_started(pre, post, t@, pre.selected, effects)
                },
            }
        }
    }

    /// Plays the selected track.
    pub fn play_selected_bg(&mut self) -> (effects: Vec<Effect>)
        requires
            old(self).inv(),
            old(self).can_play_selected(),
        ensures
            final(self).inv(),
            App::selected_played(*old(self), *final(self), effects@),
    {
        if !self.authenticated {
            self.status_msg = String::from_str(self.lang.strings().status_login_required_short);
            return Vec::new();
        }
        let track = match self.active_tab {
            Tab::Search => if self.selected < self.search_results.len() {
                self.search_results[self.selected].clone()
            } else {
                return Vec::new();
            },
            Tab::Queue => if self.selected < self.queue.len() {
                self.queue[self.selected].clone()
            } else {
                return Vec::new();
            },
            Tab::Now => {
                return Vec::new();
            },
            Tab::Library => {
                return Vec::new();
            },
        };
        if self.active_tab == Tab::Search {
            self.enqueue_and_stream(track)
        } else {
            let selected = self.selected;
            self.stream_track_bg(track, selected)
        }
    }

    /// Whether `post` and `effects` are `pre` after the user chose the
    /// selected entry of the library: the tracks of the favorite album, or
    /// of the playlist, or of the mix (the mixes listed after the
    /// playlists) are loaded; nothing happens where the selection is past
    /// the end.
    pub open spec fn library_entered(pre: App, post: App, effects: Seq<Effect>) -> bool {
        let ls = pre.library_selected as int;
        let np = pre.playlists@.len() as int;
        if pre.collection_view == CollectionView::Albums {
            if pre.fav_album_selected < pre.fav_albums@.len() {
                let album = pre.fav_albums@[pre.fav_album_selected as int];
                &&& App::began_loading(pre, post, loading_album_text(pre.lang, album.title@))
                &&& effects == seq![Effect::LoadAlbumTracks { album_id: album.id }]
            } else {
                post == pre && effects.len() == 0
            }
        } else if ls < np {
            &&& App::began_loading(pre, post, strings_of(pre.lang).status_loading_playlist@)
            &&& effects == seq![Effect::LoadPlaylistTracks { uuid: pre.playlists@[ls].uuid }]
        } else if ls - np < pre.mixes@.len() {
            &&& App::began_loading(pre, post, strings_of(pre.lang).status_loading_mix@)
            &&& effects == seq![Effect::LoadMixTracks { mix_id: pre.mixes@[ls - np].id }]
        } else {
            post == pre && effects.len() == 0
        }
    }

    /// Loads the tracks of the selected entry of the library.
    pub fn library_select_enter(&mut self) -> (effects: Vec<Effect>)
        requires
            old(self).inv(),
        ensures
            final(self).inv(),
            App::library_entered(*old(self), *final(self), effects@),
    {
        if self.collection_view == CollectionView::Albums {
            if self.fav_album_selected < self.fav_albums.len() {
                let id = self.fav_albums[self.fav_album_selected].id;
                let title = self.fav_albums[self.fav_album_selected].title.clone();
                return self.load_album_tracks_bg(id, title);
            }
            return Vec::new();
        }
        let total_playlists = self.playlists.len();
        if self.library_selected < total_playlists {
            let uuid = self.playlists[self.library_selected].uuid.clone();
            self.load_playlist_tracks_bg(uuid)
        } else {
            let mix_idx = self.library_selected - total_playlists;
            if mix_idx < self.mixes.len() {
                let mix_id = self.mixes[mix_idx].id.clone();
                self.load_mix_tracks_bg(mix_id)
            } else {
                Vec::new()
            }
        }
    }

    /// Says whether the browser opened the login page: the error and the
    /// page where it did not, the code to type where it did.
    pub fn browser_result(&mut self, error: Option<String>)
        requires
            old(self).inv(),
        ensures
            final(self).inv(),
            *final(self) == (App { status_msg: final(self).status_msg, ..*old(self) }),
            final(self).status_msg@ == match error {
                Some(e) => browser_failed_text(
                    old(self).lang,
                    e@,
                    match old(self).auth_url {
                        Some(u) => u@,
                        None => Seq::<char>::empty(),
                    },
                ),
                None => browser_opened_text(
                    old(self).lang,
                    match old(self).user_code {
                        Some(c) => c@,
                        None => Seq::<char>::empty(),
                    },
                ),
            },
    {
        let msg = match error {
            Some(e) => {
                let url = match &self.auth_url {
                    Some(u) => u.clone(),
                    None => String::new(),
                };
                self.lang.browser_failed(e.as_str(), url.as_str())
            },
            None => {
                let code = match &self.user_code {
                    Some(c) => c.clone(),
                    None => String::new(),
                };
                self.lang.browser_opened(code.as_str())
            },
        };
        self.status_msg = msg;
    }

    fn single(e: Effect) -> (r: Vec<Effect>)
        ensures
            r@ == seq![e],
    {
        let mut r = Vec::new();
        r.push(e);
        r
    }

    fn player_command(c: String) -> (r: Vec<Effect>)
        ensures
            one_command(r@, c@),
    {
        let r = App::single(Effect::PlayerCommand(c));
        assert(r@[0] == Effect::PlayerCommand(c));
        r
    }

    fn on_stream_ready(
        &mut self,
        track: Track,
        info: StreamInfo,
        queue_index: usize,
        generation: u64,
        now: u128,
    ) -> (effects: Vec<Effect>)
        requires
            old(self).inv(),
        ensures
            final(self).inv(),
            stream_ready_handled(
                *old(self),
                *final(self),
                track,
                info,
                queue_index,
                generation,
                now,
                effects@,
            ),
    {
        if generation != self.stream_generation {
            return Vec::new();
        }
        self.queue_index = Some(queue_index);
        self.current_track_id = Some(track.id);
        let artists = track.artist_names();
        let codec_upper = to_uppercase(info.codec.as_str());
        let bit_depth = decimal_string(info.bit_depth as u64);
        let sample_rate = decimal_string(info.sample_rate as u64);
        let mut msg = cat3("▶ ", artists.as_str(), " — ");
        msg.append(track.title.as_str());
        msg.append(" | ");
        msg.append(bit_depth.as_str());
        msg.append("/");
        msg.append(sample_rate.as_str());
        msg.append(" ");
        msg.append(codec_upper.as_str());
        self.status_msg = msg;
        let ti = TrackInfo {
            title: track.title.clone(),
            artist: artists,
            album: track.album.title.clone(),
            duration: track.duration,
            bit_depth: info.bit_depth,
            sample_rate: info.sample_rate,
            codec: info.codec.clone(),
        };
        let mut effects = self.player.play(info.url, ti, now);
        self.loading = false;
        self.auto_advance = true;
        effects.push(Effect::FetchCover { track_id: track.id });
        assert(effects@ =~= seq![
            Effect::StopPlayer,
            Effect::LaunchPlayer { url: info.url },
            Effect::FetchCover { track_id: track.id },
        ]);
        effects
    }

    fn on_api_command(&mut self, cmd: ApiCommand, now: u128) -> (effects: Vec<Effect>)
        requires
            old(self).inv(),
            can_handle(*old(self), AppEvent::ApiCmd(cmd)),
        ensures
            final(self).inv(),
            command_handled(*old(self), *final(self), cmd, now, effects@),
    {
        match cmd {
            ApiCommand::PlayPause => match self.player.toggle_pause(now) {
                Some(c) => App::player_command(c),
                None => Vec::new(),
            },
            ApiCommand::Next => self.play_next_bg(),
            ApiCommand::Prev => self.play_prev_bg(),
            ApiCommand::VolumeUp => {
                let c = self.player.volume_up();
                App::player_command(c)
            },
            ApiCommand::VolumeDown => {
                let c = self.player.volume_down();
                App::player_command(c)
            },
            ApiCommand::VolumeSet(v) => {
                let c = self.player.set_volume(v);
                App::player_command(c)
            },
            ApiCommand::SeekForward => {
                let c = self.player.seek_forward();
                App::player_command(c)
            },
            ApiCommand::SeekBackward => {
                let c = self.player.seek_backward();
                App::player_command(c)
            },
            ApiCommand::SeekTo(secs) => {
                let c = self.player.seek_to(secs);
                App::player_command(c)
            },
            ApiCommand::ToggleShuffle => {
                self.shuffle = !self.shuffle;
                self.status_msg = if self.shuffle {
                    String::from_str("Shuffle: on")
                } else {
                    String::from_str("Shuffle: off")
                };
                Vec::new()
            },
            ApiCommand::CycleRepeat => {
                self.repeat = match self.repeat {
                    RepeatMode::All => RepeatMode::One,
                    RepeatMode::One => RepeatMode::Off,
                    RepeatMode::Off => RepeatMode::All,
                };
                let name = match self.repeat {
                    RepeatMode::All => "all",
                    RepeatMode::One => "one",
                    RepeatMode::Off => "off",
                };
                self.status_msg = cat2("Repeat: ", name);
                Vec::new()
            },
            ApiCommand::PlayTrack(api_track) => {
                let mut artists = Vec::new();
                artists.push(Artist { id: 0, name: api_track.artist.clone() });
                let track = Track {
                    id: api_track.id,
                    title: api_track.title.clone(),
                    duration: api_track.duration,
                    track_number: None,
                    artists,
                    album: Album { id: 0, title: api_track.album.clone() },
                    audio_quality: None,
                    explicit: None,
                };
                assert(track@ == api_track_view(api_track));
                self.enqueue_and_stream(track)
            },
        }
    }

    /// Takes the event `event`, which arrived at time `now`.
    #[verifier::rlimit(60)]
    pub fn handle_event(&mut self, event: AppEvent, now: u128) -> (effects: Vec<Effect>)
        requires
            old(self).inv(),
            can_handle(*old(self), event),
        ensures
            final(self).inv(),
            event_handled(*old(self), *final(self), event, now, effects@),
    {
        match event {
            AppEvent::SearchDone(Ok(results)) => {
                self.status_msg = if results.len() == 0 {
                    String::from_str(self.lang.strings().status_no_results)
                } else {
                    self.lang.results_count(results.len())
                };
                self.search_results = results;
                self.selected = 0;
                self.active_tab = Tab::Search;
                self.loading = false;
                Vec::new()
            },
            AppEvent::SearchDone(Err(e)) => {
                self.status_msg = self.lang.search_error(e.as_str());
                self.loading = false;
                Vec::new()
            },
            AppEvent::StreamReady { track, info, queue_index, generation } => {
                self.on_stream_ready(track, info, queue_index, generation, now)
            },
            AppEvent::StreamError(e) => {
                self.status_msg = self.lang.stream_error(e.as_str());
                self.loading = false;
                Vec::new()
            },
            AppEvent::AuthStarted { url, code, device_code } => {
                let url_to_open = if starts_with(url.as_str(), "http://") || starts_with(
                    url.as_str(),
                    "https://",
                ) {
                    url.clone()
                } else {
                    cat2("https://", url.as_str())
                };
                self.device_code = Some(device_code);
                self.user_code = Some(code);
                self.auth_url = Some(url);
                self.loading = false;
                App::single(Effect::OpenBrowser { url: url_to_open })
            },
            AppEvent::AuthDone => {
                self.authenticated = true;
                self.device_code = None;
                self.user_code = None;
                self.auth_url = None;
                self.status_msg = String::from_str(self.lang.strings().status_auth_done);
                self.loading = false;
                Vec::new()
            },
            AppEvent::AuthError(e) => {
                self.status_msg = self.lang.auth_error(e.as_str());
                self.loading = false;
                Vec::new()
            },
            AppEvent::StatusMsg(msg) => {
                self.status_msg = msg;
                Vec::new()
            },
            AppEvent::CoverReady { info, image } => {
                self.cover_info = Some(info);
                self.cover_image = Some(image);
                self.last_img_area = None;
                App::single(Effect::ClearCoverProtocol)
            },
            AppEvent::CoverError => {
                self.cover_image = None;
                App::single(Effect::ClearCoverProtocol)
            },
            AppEvent::LibraryLoaded { playlists, mixes } => {
                self.playlists = playlists;
                self.mixes = mixes;
                self.active_tab = Tab::Library;
                self.loading = false;
                self.status_msg = self.lang.library_loaded(self.playlists.len(), self.mixes.len());
                Vec::new()
            },
            AppEvent::PlaylistTracksLoaded(tracks) => {
                self.queue = tracks;
                self.queue_index = None;
                self.selected = 0;
                self.active_tab = Tab::Queue;
                self.loading = false;
                self.status_msg = self.lang.tracks_loaded(self.queue.len());
                Vec::new()
            },
            AppEvent::FavTracksLoaded(tracks) => {
                self.queue = tracks;
                self.queue_index = None;
                self.selected = 0;
                self.active_tab = Tab::Queue;
                self.loading = false;
                self.status_msg = self.lang.fav_tracks_loaded(self.queue.len());
                Vec::new()
            },
            AppEvent::FavAlbumsLoaded(albums) => {
                self.fav_albums = albums;
                self.fav_album_selected = 0;
                self.collection_view = CollectionView::Albums;
                self.active_tab = Tab::Library;
                self.loading = false;
                self.status_msg = self.lang.fav_albums_loaded(self.fav_albums.len());
                Vec::new()
            },
            AppEvent::ApiCmd(cmd) => self.on_api_command(cmd, now),
        }
    }

    fn move_down(&mut self)
        requires
            old(self).inv(),
        ensures
            final(self).inv(),
            moved_down(*old(self), *final(self)),
    {
        if self.active_tab == Tab::Library {
            if self.collection_view == CollectionView::Albums {
                let max = self.fav_albums.len();
                if max > 0 {
                    self.fav_album_selected = (self.fav_album_selected + 1) % max;
                }
            } else {
                let max = self.playlists.len() + self.mixes.len();
                if max > 0 {
                    self.library_selected = (self.library_selected + 1) % max;
                }
            }
        } else {
            self.next_track();
        }
    }

    fn move_up(&mut self)
        requires
            old(self).inv(),
        ensures
            final(self).inv(),
            moved_up(*old(self), *final(self)),
    {
        if self.active_tab == Tab::Library {
            if self.collection_view == CollectionView::Albums {
                let max = self.fav_albums.len();
                if max > 0 {
                    self.fav_album_selected = if self.fav_album_selected == 0 {
                        max - 1
                    } else {
                        self.fav_album_selected - 1
                    };
                }
            } else {
                let max = self.playlists.len() + self.mixes.len();
                if max > 0 {
                    self.library_selected = if self.library_selected == 0 {
                        max - 1
                    } else {
                        self.library_selected - 1
                    };
                }
            }
        } else {
            self.prev_track();
        }
    }

    fn on_char_key(&mut self, c: char, now: u128) -> (effects: Vec<Effect>)
        requires
            old(self).inv(),
            can_handle_normal_key(*old(self), Key::Char(c)),
        ensures
            final(self).inv(),
            normal_key_handled(*old(self), *final(self), Key::Char(c), now, effects@),
    {
        if c == 'q' {
            self.player.stop();
            let mut effects = Vec::new();
            effects.push(Effect::StopPlayer);
            effects.push(Effect::ExitProcess);
            assert(effects@ =~= seq![Effect::StopPlayer, Effect::ExitProcess]);
            effects
        } else if c == '/' || c == 's' {
            self.input_mode = InputMode::Search;
            self.search_input = String::new();
            Vec::new()
        } else if c == 'l' || c == 'L' {
            if !self.authenticated {
                self.start_login_bg()
            } else {
                Vec::new()
            }
        } else if c == 'i' {
            self.load_library_bg()
        } else if c == 'F' {
            self.load_fav_tracks_bg()
        } else if c == 'A' {
            self.load_fav_albums_bg()
        } else if c == 'j' {
            self.move_down();
            Vec::new()
        } else if c == 'k' {
            self.move_up();
            Vec::new()
        } else if c == ' ' {
            match self.player.toggle_pause(now) {
                Some(cmd) => App::player_command(cmd),
                None => Vec::new(),
            }
        } else if c == 'n' {
            self.play_next_bg()
        } else if c == 'p' {
            self.play_prev_bg()
        } else if c == '+' || c == '=' {
            let cmd = self.player.volume_up();
            App::player_command(cmd)
        } else if c == '-' {
            let cmd = self.player.volume_down();
            App::player_command(cmd)
        } else if c == '1' {
            self.set_quality(Quality::HiResLossless);
            Vec::new()
        } else if c == '2' {
            self.set_quality(Quality::Lossless);
            Vec::new()
        } else if c == '3' {
            self.set_quality(Quality::High);
            Vec::new()
        } else if c == '`' {
            self.cycle_lang()
        } else {
            Vec::new()
        }
    }

    /// Takes the key `key`, pressed at time `now`, in normal mode.
    pub fn handle_normal_key(&mut self, key: Key, now: u128) -> (effects: Vec<Effect>)
        requires
            old(self).inv(),
            can_handle_normal_key(*old(self), key),
        ensures
            final(self).inv(),
            normal_key_handled(*old(self), *final(self), key, now, effects@),
    {
        match key {
            Key::Char(c) => self.on_char_key(c, now),
            Key::Down => {
                self.move_down();
                Vec::new()
            },
            Key::Up => {
                self.move_up();
                Vec::new()
            },
            Key::Enter => if self.active_tab == Tab::Library {
                self.library_select_enter()
            } else {
                self.play_selected_bg()
            },
            Key::Right => {
                let cmd = self.player.seek_forward();
                App::player_command(cmd)
            },
            Key::Left => {
                let cmd = self.player.seek_backward();
                App::player_command(cmd)
            },
            Key::Tab => {
                self.next_tab();
                Vec::new()
            },
            _ => Vec::new(),
        }
    }

    /// Takes the key `key` while the query is typed.
    pub fn handle_search_key(&mut self, key: Key) -> (effects: Vec<Effect>)
        requires
            old(self).inv(),
        ensures
            final(self).inv(),
            search_key_handled(*old(self), *final(self), key, effects@),
    {
        match key {
            Key::Esc => {
                self.input_mode = InputMode::Normal;
                Vec::new()
            },
            Key::Enter => {
                self.input_mode = InputMode::Normal;
                self.do_search_bg()
            },
            Key::Backspace => {
                pop_char(&mut self.search_input);
                Vec::new()
            },
            Key::Char(c) => {
                push_char(&mut self.search_input, c);
                Vec::new()
            },
            _ => Vec::new(),
        }
    }

    /// Takes the key `key`, pressed at time `now`.
    pub fn handle_key(&mut self, key: Key, now: u128) -> (effects: Vec<Effect>)
        requires
            old(self).inv(),
            can_handle_key(*old(self), key),
        ensures
            final(self).inv(),
            key_handled(*old(self), *final(self), key, now, effects@),
    {
        if key == Key::Interrupt {
            self.player.stop();
            let mut effects = Vec::new();
            effects.push(Effect::StopPlayer);
            effects.push(Effect::EndSession);
            assert(effects@ =~= seq![Effect::StopPlayer, Effect::EndSession]);
            return effects;
        }
        match self.input_mode {
            InputMode::Normal => self.handle_normal_key(key, now),
            InputMode::Search => self.handle_search_key(key),
        }
    }

    /// Whether `post` and `effects` are `pre` after the check for the end
    /// of a track: where playback stopped by itself (the queue has a
    /// current position and the track was started), the next track plays
    /// (see `next_target`), the shuffle seeded by some reading of the clock.
    pub open spec fn auto_advanced(pre: App, post: App, effects: Seq<Effect>) -> bool {
        if pre.auto_advances() {
            exists|n: u32|
                n < 1_000_000_000 && App::next_played(
                    App { auto_advance: false, ..pre },
                    post,
                    n,
                    effects,
                )
        } else {
            post == pre && effects.len() == 0
        }
    }

    /// Whether the current track ended by itself, so that the next one is
    /// to play: playback stopped, the queue has a current position and is
    /// not empty, and the track was started.
    pub open spec fn auto_advances(&self) -> bool {
        self.player.state == PlayerState::Stopped && self.queue_index.is_some()
            && self.queue@.len() > 0 && self.auto_advance
    }

    /// Whether the current track ended by itself (see `auto_advances`).
    pub fn will_auto_advance(&self) -> (r: bool)
        ensures
            r == self.auto_advances(),
    {
        self.player.state == PlayerState::Stopped && self.queue_index.is_some()
            && self.queue.len() > 0 && self.auto_advance
    }

    /// Plays the next track where the current one ended by itself.
    pub fn auto_advance_step(&mut self) -> (effects: Vec<Effect>)
        requires
            old(self).inv(),
            old(self).auto_advances() ==> old(self).can_play_next(),
        ensures
            final(self).inv(),
            App::auto_advanced(*old(self), *final(self), effects@),
    {
        if self.will_auto_advance() {
            self.auto_advance = false;
            self.play_next_bg()
        } else {
            Vec::new()
        }
    }

    /// Asks whether a pending login is done, where one is pending and the
    /// user is not yet logged in.
    pub fn on_auth_tick(&self) -> (effects: Vec<Effect>)
        ensures
            self.device_code.is_some() && !self.authenticated ==> {
                &&& effects@.len() == 1
                &&& effects@[0] matches Effect::PollAuth { device_code } && Some(device_code)
                    == self.device_code
            },
            !(self.device_code.is_some() && !self.authenticated) ==> effects@.len() == 0,
    {
        if self.device_code.is_some() && !self.authenticated {
            self.poll_auth_bg()
        } else {
            Vec::new()
        }
    }

    /// Brings the player's clock up to time `now`, where `exited` says
    /// whether the audio process has ended.
    pub fn tick(&mut self, now: u128, exited: bool)
        requires
            old(self).inv(),
            can_tick(old(self).player, now),
        ensures
            final(self).inv(),
            *final(self) == (App { player: ticked(old(self).player, now, exited), ..*old(self) }),
    {
        self.player.tick(now, exited);
    }

    /// Says that the saved session is being checked.
    pub fn begin_session_check(&mut self)
        requires
            old(self).inv(),
        ensures
            final(self).inv(),
            *final(self) == (App { status_msg: final(self).status_msg, ..*old(self) }),
            final(self).status_msg@ == strings_of(old(self).lang).status_session_loading@,
    {
        self.status_msg = String::from_str(self.lang.strings().status_session_loading);
    }

    /// Takes the outcome of the check of the saved session: logged in where
    /// it is usable, asked to log in otherwise.
    pub fn session_checked(&mut self, ok: bool)
        requires
            old(self).inv(),
        ensures
            final(self).inv(),
            *final(self) == (App {
                authenticated: old(self).authenticated || ok,
                status_msg: final(self).status_msg,
                ..*old(self)
            }),
            final(self).status_msg@ == if ok {
                strings_of(old(self).lang).status_session_active@
            } else {
                strings_of(old(self).lang).status_press_l@
            },
    {
        if ok {
            self.status_msg = String::from_str(self.lang.strings().status_session_active);
            self.authenticated = true;
        } else {
            self.status_msg = String::from_str(self.lang.strings().status_press_l);
        }
    }

    /// What the control API reports: the playback state, the current
    /// track's names, length and format, the whole seconds elapsed, the
    /// volume, the modes, whether the user is logged in, and the queue.
    pub fn api_status_snapshot(&self) -> (r: ApiStatus)
        requires
            self.inv(),
        ensures
            r.state@ == state_name(self.player.state),
            r.title == match self.player.current {
                Some(ti) => Some(ti.title),
                None => None,
            },
            r.artist == match self.player.current {
                Some(ti) => Some(ti.artist),
                None => None,
            },
            r.album == match self.player.current {
                Some(ti) => Some(ti.album),
                None => None,
            },
            r.duration == match self.player.current {
                Some(ti) => Some(ti.duration),
                None => None,
            },
            r.bit_depth == match self.player.current {
                Some(ti) => Some(ti.bit_depth),
                None => None,
            },
            r.sample_rate == match self.player.current {
                Some(ti) => Some(ti.sample_rate),
                None => None,
            },
            r.codec == match self.player.current {
                Some(ti) => Some(ti.codec),
                None => None,
            },
            r.elapsed == self.player.elapsed / NANOS_PER_SEC,
            r.volume == self.player.volume,
            r.shuffle == self.shuffle,
            r.repeat == self.repeat,
            r.authenticated == self.authenticated,
            track_views(r.queue@) == track_views(self.queue@),
            r.queue_index == self.queue_index,
    {
        let state = match self.player.state {
            PlayerState::Playing => String::from_str("playing"),
            PlayerState::Paused => String::from_str("paused"),
            PlayerState::Stopped => String::from_str("stopped"),
        };
        let (title, artist, album, duration, bit_depth, sample_rate, codec) = match &self.player.current {
            Some(ti) => (
                Some(ti.title.clone()),
                Some(ti.artist.clone()),
                Some(ti.album.clone()),
                Some(ti.duration),
                Some(ti.bit_depth),
                Some(ti.sample_rate),
                Some(ti.codec.clone()),
            ),
            None => (None, None, None, None, None, None, None),
        };
        ApiStatus {
            state,
            title,
            artist,
            album,
            duration,
            elapsed: self.player.elapsed_secs(),
            volume: self.player.volume,
            bit_depth,
            sample_rate,
            codec,
            shuffle: self.shuffle,
            repeat: self.repeat,
            authenticated: self.authenticated,
            queue: clone_tracks(&self.queue),
            queue_index: self.queue_index,
        }
    }
}

} // verus!
