//! The catalogue model (tracks, albums, playlists, mixes) and the protocol
//! spoken with the helper script `tidal.py`: which arguments each request
//! passes, how the script's output is read, and what each reply means.
use crate::text::{
    cat2, cat4, decimal, decimal_string, is_trim_of, join, minutes_seconds,
    minutes_seconds_string, texts, trim, trim_is_unique, words1, words2, words3,
};
use vstd::prelude::*;

verus! {

/// The audio quality asked of the service.
#[derive(Debug, Clone, Copy, PartialEq, Eq, Structural)]
pub enum Quality {
    HiResLossless,
    Lossless,
    High,
}

/// The name of a quality in the service's API.
pub open spec fn quality_api_name(q: Quality) -> Seq<char> {
    match q {
        Quality::HiResLossless => "HI_RES_LOSSLESS"@,
        Quality::Lossless => "LOSSLESS"@,
        Quality::High => "HIGH"@,
    }
}

/// The name of a quality shown to the user.
pub open spec fn quality_label(q: Quality) -> Seq<char> {
    match q {
        Quality::HiResLossless => "HiRes FLAC 24bit"@,
        Quality::Lossless => "FLAC 16bit/44.1kHz"@,
        Quality::High => "AAC 320kbps"@,
    }
}

impl Quality {
    /// The name of this quality in the service's API.
    pub fn as_api_str(&self) -> (r: &'static str)
        ensures
            r@ == quality_api_name(*self),
    {
        match self {
            Quality::HiResLossless => "HI_RES_LOSSLESS",
            Quality::Lossless => "LOSSLESS",
            Quality::High => "HIGH",
        }
    }

    /// The name of this quality shown to the user.
    pub fn label(&self) -> (r: &'static str)
        ensures
            r@ == quality_label(*self),
    {
        match self {
            Quality::HiResLossless => "HiRes FLAC 24bit",
            Quality::Lossless => "FLAC 16bit/44.1kHz",
            Quality::High => "AAC 320kbps",
        }
    }
}

/// An artist of a track or an album.
#[derive(Debug)]
pub struct Artist {
    pub id: u64,
    pub name: String,
}

impl Clone for Artist {
    fn clone(&self) -> (r: Self)
        ensures
            r == *self,
    {
        Artist { id: self.id, name: self.name.clone() }
    }
}

/// The album a track belongs to.
#[derive(Debug)]
pub struct Album {
    pub id: u64,
    pub title: String,
}

impl Clone for Album {
    fn clone(&self) -> (r: Self)
        ensures
            r == *self,
    {
        Album { id: self.id, title: self.title.clone() }
    }
}

/// A track of the catalogue.
#[derive(Debug)]
pub struct Track {
    pub id: u64,
    pub title: String,
    pub duration: u64,
    pub track_number: Option<u32>,
    pub artists: Vec<Artist>,
    pub album: Album,
    pub audio_quality: Option<String>,
    pub explicit: Option<bool>,
}

/// A copy of a list of artists, element by element.
pub fn clone_artists(v: &Vec<Artist>) -> (r: Vec<Artist>)
    ensures
        r@ == v@,
{
    let mut r: Vec<Artist> = Vec::new();
    let mut i: usize = 0;
    while i < v.len()
        invariant
            i <= v.len(),
            r@ == v@.subrange(0, i as int),
        decreases v.len() - i,
    {
        r.push(v[i].clone());
        i = i + 1;
        assert(r@ =~= v@.subrange(0, i as int));
    }
    assert(v@.subrange(0, v.len() as int) =~= v@);
    r
}

/// A copy of an optional piece of text.
pub fn clone_opt_string(s: &Option<String>) -> (r: Option<String>)
    ensures
        r == *s,
{
    match s {
        Some(t) => Some(t.clone()),
        None => None,
    }
}

/// A track as a mathematical value: its list of artists as a sequence.
pub struct TrackView {
    pub id: u64,
    pub title: String,
    pub duration: u64,
    pub track_number: Option<u32>,
    pub artists: Seq<Artist>,
    pub album: Album,
    pub audio_quality: Option<String>,
    pub explicit: Option<bool>,
}

impl View for Track {
    type V = TrackView;

    open spec fn view(&self) -> TrackView {
        TrackView {
            id: self.id,
            title: self.title,
            duration: self.duration,
            track_number: self.track_number,
            artists: self.artists@,
            album: self.album,
            audio_quality: self.audio_quality,
            explicit: self.explicit,
        }
    }
}

/// The values of a list of tracks.
pub open spec fn track_views(s: Seq<Track>) -> Seq<TrackView> {
    s.map_values(|t: Track| t@)
}

impl Clone for Track {
    fn clone(&self) -> (r: Self)
        ensures
            r@ == self@,
    {
        Track {
            id: self.id,
            title: self.title.clone(),
            duration: self.duration,
            track_number: self.track_number,
            artists: clone_artists(&self.artists),
            album: self.album.clone(),
            audio_quality: clone_opt_string(&self.audio_quality),
            explicit: self.explicit,
        }
    }
}

/// The names of a list of artists.
pub open spec fn artist_names_of(artists: Seq<Artist>) -> Seq<Seq<char>> {
    artists.map_values(|a: Artist| a.name@)
}

/// The names of a list of artists, separated by a comma and a space.
pub open spec fn joined_artist_names(artists: Seq<Artist>) -> Seq<char> {
    join(artist_names_of(artists), ", "@)
}

/// Writes the names of `artists`, separated by a comma and a space.
pub fn join_artist_names(artists: &Vec<Artist>) -> (r: String)
    ensures
        r@ == joined_artist_names(artists@),
{
    let mut r = String::new();
    let ghost names = artist_names_of(artists@);
    let mut i: usize = 0;
    while i < artists.len()
        invariant
            i <= artists.len(),
            names == artist_names_of(artists@),
            r@ == join(names.subrange(0, i as int), ", "@),
        decreases artists.len() - i,
    {
        proof {
            assert(names.subrange(0, i + 1).drop_last() =~= names.subrange(0, i as int));
            assert(names.subrange(0, i + 1).last() == artists@[i as int].name@);
        }
        if i > 0 {
            r.append(", ");
        }
        r.append(artists[i].name.as_str());
        i = i + 1;
        proof {
            if i == 1 {
                assert(names.subrange(0, 0) =~= Seq::<Seq<char>>::empty());
                assert(r@ =~= join(names.subrange(0, 1), ", "@));
            }
        }
    }
    proof {
        assert(names.subrange(0, artists.len() as int) =~= names);
        if artists.len() == 0 {
            assert(r@ =~= join(names, ", "@));
        }
    }
    r
}

/// The symbol shown for the audio quality a track is offered in.
pub open spec fn quality_icon_of(audio_quality: Option<String>) -> Seq<char> {
    match audio_quality {
        Some(q) => if q@ == "HI_RES_LOSSLESS"@ {
            "◈"@
        } else if q@ == "LOSSLESS"@ {
            "◆"@
        } else {
            "◇"@
        },
        None => "◇"@,
    }
}

/// Tests two pieces of text for equality.
pub fn same_text(a: &str, b: &str) -> (r: bool)
    ensures
        r == (a@ == b@),
{
    String::from_str(a) == String::from_str(b)
}

impl Track {
    /// The names of the track's artists, separated by a comma and a space.
    pub fn artist_names(&self) -> (r: String)
        ensures
            r@ == joined_artist_names(self.artists@),
    {
        join_artist_names(&self.artists)
    }

    /// The track's length as `m:ss`.
    pub fn duration_str(&self) -> (r: String)
        ensures
            r@ == minutes_seconds(self.duration as nat),
    {
        minutes_seconds_string(self.duration)
    }

    /// The symbol of the quality the track is offered in: a full diamond
    /// with an inner one for hi-res, a full diamond for lossless, an empty
    /// one otherwise.
    pub fn quality_icon(&self) -> (r: &'static str)
        ensures
            r@ == quality_icon_of(self.audio_quality),
    {
        match &self.audio_quality {
            Some(q) => {
                if same_text(q.as_str(), "HI_RES_LOSSLESS") {
                    "◈"
                } else if same_text(q.as_str(), "LOSSLESS") {
                    "◆"
                } else {
                    "◇"
                }
            },
            None => "◇",
        }
    }
}

/// An album of the user's collection.
#[derive(Debug)]
pub struct FavAlbum {
    pub id: u64,
    pub title: String,
    pub number_of_tracks: u32,
    pub duration: u64,
    pub artists: Vec<Artist>,
    pub cover_url: Option<String>,
}

impl FavAlbum {
    /// The names of the album's artists, separated by a comma and a space.
    pub fn artist_names(&self) -> (r: String)
        ensures
            r@ == joined_artist_names(self.artists@),
    {
        join_artist_names(&self.artists)
    }
}

/// Where and in what format a track can be streamed.
#[derive(Debug)]
pub struct StreamInfo {
    pub url: String,
    pub bit_depth: u32,
    pub sample_rate: u32,
    pub codec: String,
}

impl Clone for StreamInfo {
    fn clone(&self) -> (r: Self)
        ensures
            r == *self,
    {
        StreamInfo {
            url: self.url.clone(),
            bit_depth: self.bit_depth,
            sample_rate: self.sample_rate,
            codec: self.codec.clone(),
        }
    }
}

/// Where the cover picture of a track is.
#[derive(Debug)]
pub struct CoverInfo {
    pub url: String,
}

impl Clone for CoverInfo {
    fn clone(&self) -> (r: Self)
        ensures
            r == *self,
    {
        CoverInfo { url: self.url.clone() }
    }
}

/// A playlist of the user's library.
#[derive(Debug)]
pub struct Playlist {
    pub uuid: String,
    pub title: String,
    pub number_of_tracks: u32,
    pub duration: u64,
    pub playlist_type: String,
    pub public_playlist: Option<bool>,
    pub image: Option<String>,
    pub square_image: Option<String>,
}

/// A mix of the user's library.
#[derive(Debug)]
pub struct Mix {
    pub id: String,
    pub title: String,
    pub sub_title: Option<String>,
}

/// The script's reply when a login starts.
pub struct AuthStartResp {
    pub url: Option<String>,
    pub code: Option<String>,
    pub error: Option<String>,
}

/// The script's reply when asked whether the session is authenticated.
pub struct AuthPollResp {
    pub authenticated: Option<bool>,
    pub error: String,
}

/// The script's reply when asked for the stream of a track.
pub struct StreamResp {
    pub url: Option<String>,
    pub codec: Option<String>,
    pub bit_depth: Option<u32>,
    pub sample_rate: Option<u32>,
    pub error: Option<String>,
}

/// The script's reply when asked for the cover of a track.
pub struct CoverResp {
    pub url: Option<String>,
    pub error: Option<String>,
}

/// What can go wrong in a request to the script.
#[derive(Debug)]
pub enum TidalError {
    /// The interpreter could not be started.
    Launch { detail: String, script: String },
    /// The interpreter could not be started for a login.
    LoginLaunch(String),
    /// The first line of the login output could not be read.
    ReadOutput(String),
    /// The background task that read the login output failed.
    Task(String),
    /// The script wrote nothing (but white space) on its output.
    NoOutput,
    /// The output is not the JSON that the request expects.
    Json { detail: String, output: String },
    /// The script reported an error.
    Script(String),
    /// There is no authenticated session.
    NoSession,
    /// The login reply holds no URL.
    MissingAuthUrl,
    /// The stream reply holds no URL.
    MissingStreamUrl,
}

/// The text of an error, as the user sees it.
pub open spec fn error_text(e: TidalError) -> Seq<char> {
    match e {
        TidalError::Launch { detail, script } => "No se pudo ejecutar python3: "@ + detail@
            + "\n¿Está tidal.py en '"@ + script@ + "'?"@,
        TidalError::LoginLaunch(detail) => "Error lanzando python3: "@ + detail@,
        TidalError::ReadOutput(detail) => "Error leyendo output: "@ + detail@,
        TidalError::Task(detail) => detail@,
        TidalError::NoOutput => "tidal.py no produjo output"@,
        TidalError::Json { detail, output } => "JSON error: "@ + detail@ + "\noutput: "@
            + output@,
        TidalError::Script(e) => e@,
        TidalError::NoSession => "Sin sesión activa"@,
        TidalError::MissingAuthUrl => "Sin URL de auth"@,
        TidalError::MissingStreamUrl => "Sin URL de stream"@,
    }
}

impl TidalError {
    /// The text of this error, as the user sees it.
    pub fn message(&self) -> (r: String)
        ensures
            r@ == error_text(*self),
    {
        match self {
            TidalError::Launch { detail, script } => {
                let mut r = cat4(
                    "No se pudo ejecutar python3: ",
                    detail.as_str(),
                    "\n¿Está tidal.py en '",
                    script.as_str(),
                );
                r.append("'?");
                r
            },
            TidalError::LoginLaunch(detail) => cat2("Error lanzando python3: ", detail.as_str()),
            TidalError::ReadOutput(detail) => cat2("Error leyendo output: ", detail.as_str()),
            TidalError::Task(detail) => detail.clone(),
            TidalError::NoOutput => String::from_str("tidal.py no produjo output"),
            TidalError::Json { detail, output } => cat4(
                "JSON error: ",
                detail.as_str(),
                "\noutput: ",
                output.as_str(),
            ),
            TidalError::Script(e) => e.clone(),
            TidalError::NoSession => String::from_str("Sin sesión activa"),
            TidalError::MissingAuthUrl => String::from_str("Sin URL de auth"),
            TidalError::MissingStreamUrl => String::from_str("Sin URL de stream"),
        }
    }
}

/// A request to the script.
pub enum TidalRequest {
    FavoriteTracks,
    FavoriteAlbums,
    AlbumTracks(u64),
    AuthPoll,
    AuthStart,
    Search { query: String, limit: usize },
    Stream(u64),
    Cover(u64),
    Playlists,
    PlaylistTracks(String),
    Mixes,
    MixTracks(String),
    Radio(u64),
}

/// The arguments that follow the script's path for a request, with
/// `quality` the quality that streams are asked in.
pub open spec fn request_args(req: TidalRequest, quality: Quality) -> Seq<Seq<char>> {
    match req {
        TidalRequest::FavoriteTracks => seq!["fav_tracks"@],
        TidalRequest::FavoriteAlbums => seq!["fav_albums"@],
        TidalRequest::AlbumTracks(id) => seq!["album_tracks"@, decimal(id as nat)],
        TidalRequest::AuthPoll => seq!["auth"@, "poll"@],
        TidalRequest::AuthStart => seq!["auth"@, "start"@],
        TidalRequest::Search { query, limit } => seq!["search"@, query@, decimal(limit as nat)],
        TidalRequest::Stream(id) => seq!["stream"@, decimal(id as nat), quality_api_name(quality)],
        TidalRequest::Cover(id) => seq!["cover"@, decimal(id as nat)],
        TidalRequest::Playlists => seq!["playlists"@],
        TidalRequest::PlaylistTracks(uuid) => seq!["playlist_tracks"@, uuid@],
        TidalRequest::Mixes => seq!["mixes"@],
        TidalRequest::MixTracks(id) => seq!["mix_tracks"@, id@],
        TidalRequest::Radio(id) => seq!["radio"@, decimal(id as nat)],
    }
}

/// The script's path when the one next to the program and the one in the
/// working directory are both missing.
pub open spec fn default_script() -> Seq<char> {
    "tidal.py"@
}

/// The interpreter used when none is configured.
pub open spec fn default_python() -> Seq<char> {
    "python3"@
}

/// How the helper script is run, and in which quality streams are asked.
pub struct TidalClient {
    pub quality: Quality,
    pub script_path: String,
    pub python_path: String,
}

impl TidalClient {
    /// A client for the script found next to the program if there is one
    /// there, else in the working directory if there is one there, else
    /// `tidal.py`; run by the configured interpreter if one is configured,
    /// else by `python3`; asking streams in lossless quality.
    /// `beside_program` and `in_working_dir` are the paths of the script at
    /// those two places, given only where the file exists.
    pub fn new(
        beside_program: Option<String>,
        in_working_dir: Option<String>,
        configured_python: Option<String>,
    ) -> (r: Self)
        ensures
            r.quality == Quality::Lossless,
            r.script_path@ == match beside_program {
                Some(p) => p@,
                None => match in_working_dir {
                    Some(p) => p@,
                    None => default_script(),
                },
            },
            r.python_path@ == match configured_python {
                Some(p) => p@,
                None => default_python(),
            },
    {
        let script_path = match beside_program {
            Some(p) => p,
            None => match in_working_dir {
                Some(p) => p,
                None => String::from_str("tidal.py"),
            },
        };
        let python_path = match configured_python {
            Some(p) => p,
            None => String::from_str("python3"),
        };
        TidalClient { quality: Quality::Lossless, script_path, python_path }
    }

    /// A client for a given script, quality and interpreter.
    pub fn with_path_and_quality(script_path: String, quality: Quality, python_path: String) -> (r:
        Self)
        ensures
            r.quality == quality,
            r.script_path == script_path,
            r.python_path == python_path,
    {
        TidalClient { quality, script_path, python_path }
    }

    /// The arguments that follow the script's path for `req`.
    pub fn request_args(&self, req: &TidalRequest) -> (r: Vec<String>)
        ensures
            texts(r@) == request_args(*req, self.quality),
    {
        match req {
            TidalRequest::FavoriteTracks => words1("fav_tracks"),
            TidalRequest::FavoriteAlbums => words1("fav_albums"),
            TidalRequest::AlbumTracks(id) => {
                let n = decimal_string(*id);
                words2("album_tracks", n.as_str())
            },
            TidalRequest::AuthPoll => words2("auth", "poll"),
            TidalRequest::AuthStart => words2("auth", "start"),
            TidalRequest::Search { query, limit } => {
                let n = decimal_string(*limit as u64);
                words3("search", query.as_str(), n.as_str())
            },
            TidalRequest::Stream(id) => {
                let n = decimal_string(*id);
                words3("stream", n.as_str(), self.quality.as_api_str())
            },
            TidalRequest::Cover(id) => {
                let n = decimal_string(*id);
                words2("cover", n.as_str())
            },
            TidalRequest::Playlists => words1("playlists"),
            TidalRequest::PlaylistTracks(uuid) => words2("playlist_tracks", uuid.as_str()),
            TidalRequest::Mixes => words1("mixes"),
            TidalRequest::MixTracks(id) => words2("mix_tracks", id.as_str()),
            TidalRequest::Radio(id) => {
                let n = decimal_string(*id);
                words2("radio", n.as_str())
            },
        }
    }

    /// The script's output with the white space at its ends removed, or
    /// `NoOutput` where nothing is left.
    pub fn read_output(raw: &str) -> (r: Result<String, TidalError>)
        ensures
            match r {
                Ok(t) => is_trim_of(t@, raw@) && t@.len() > 0,
                Err(e) => e == TidalError::NoOutput && (forall|t: Seq<char>|
                    is_trim_of(t, raw@) ==> t.len() == 0),
            },
    {
        let t = trim(raw);
        if t.as_str().is_empty() {
            proof {
                assert forall|u: Seq<char>| is_trim_of(u, raw@) implies u.len() == 0 by {
                    trim_is_unique(u, t@, raw@);
                }
            }
            Err(TidalError::NoOutput)
        } else {
            Ok(t)
        }
    }

    /// What the reply to `auth poll` means when the program starts: the
    /// session is usable if the reply says it is authenticated.
    pub fn session_from(resp: &AuthPollResp) -> (r: Result<(), TidalError>)
        ensures
            match r {
                Ok(_) => resp.authenticated == Some(true),
                Err(e) => resp.authenticated != Some(true) && e == TidalError::NoSession,
            },
    {
        match resp.authenticated {
            Some(true) => Ok(()),
            _ => Err(TidalError::NoSession),
        }
    }

    /// What the reply to `auth start` means: an error the script reported,
    /// else the login URL (an error where there is none) with the device code
    /// `pending` and the user code (empty where there is none).
    pub fn device_auth_from(resp: &AuthStartResp) -> (r: Result<(String, String, String), TidalError>)
        ensures
            match resp.error {
                Some(e) => r == Err::<(String, String, String), TidalError>(TidalError::Script(e)),
                None => match resp.url {
                    None => r == Err::<(String, String, String), TidalError>(
                        TidalError::MissingAuthUrl,
                    ),
                    Some(url) => r matches Ok((device, code, u)) && device@ == "pending"@ && u
                        == url && code@ == match resp.code {
                        Some(c) => c@,
                        None => Seq::empty(),
                    },
                },
            },
    {
        match &resp.error {
            Some(e) => Err(TidalError::Script(e.clone())),
            None => match &resp.url {
                None => Err(TidalError::MissingAuthUrl),
                Some(url) => {
                    let code = match &resp.code {
                        Some(c) => c.clone(),
                        None => String::new(),
                    };
                    Ok((String::from_str("pending"), code, url.clone()))
                },
            },
        }
    }

    /// What the reply to a later `auth poll` means: whether the login is done.
    pub fn poll_from(resp: &AuthPollResp) -> (r: bool)
        ensures
            r == (resp.authenticated == Some(true)),
    {
        match resp.authenticated {
            Some(true) => true,
            _ => false,
        }
    }

    /// What the reply to `stream` means: an error the script reported, else
    /// the stream URL (an error where there is none) with the codec, bit
    /// depth and sample rate, which are `flac`, 16 and 44100 where the reply
    /// gives none.
    pub fn stream_info_from(resp: &StreamResp) -> (r: Result<StreamInfo, TidalError>)
        ensures
            match resp.error {
                Some(e) => r == Err::<StreamInfo, TidalError>(TidalError::Script(e)),
                None => match resp.url {
                    None => r == Err::<StreamInfo, TidalError>(TidalError::MissingStreamUrl),
                    Some(url) => r matches Ok(info) && info.url == url && info.codec@ == match resp.codec {
                        Some(c) => c@,
                        None => "flac"@,
                    } && info.bit_depth == match resp.bit_depth {
                        Some(b) => b,
                        None => 16u32,
                    } && info.sample_rate == match resp.sample_rate {
                        Some(s) => s,
                        None => 44100u32,
                    },
                },
            },
    {
        match &resp.error {
            Some(e) => Err(TidalError::Script(e.clone())),
            None => match &resp.url {
                None => Err(TidalError::MissingStreamUrl),
                Some(url) => {
                    let codec = match &resp.codec {
                        Some(c) => c.clone(),
                        None => String::from_str("flac"),
                    };
                    let bit_depth = match resp.bit_depth {
                        Some(b) => b,
                        None => 16,
                    };
                    let sample_rate = match resp.sample_rate {
                        Some(s) => s,
                        None => 44100,
                    };
                    Ok(StreamInfo { url: url.clone(), bit_depth, sample_rate, codec })
                },
            },
        }
    }

    /// What the reply to `cover` means: an error the script reported, else
    /// the picture's URL (empty where the reply gives none).
    pub fn cover_from(resp: &CoverResp) -> (r: Result<CoverInfo, TidalError>)
        ensures
            match resp.error {
                Some(e) => r == Err::<CoverInfo, TidalError>(TidalError::Script(e)),
                None => r matches Ok(info) && info.url@ == match resp.url {
                    Some(u) => u@,
                    None => Seq::empty(),
                },
            },
    {
        match &resp.error {
            Some(e) => Err(TidalError::Script(e.clone())),
            None => {
                let url = match &resp.url {
                    Some(u) => u.clone(),
                    None => String::new(),
                };
                Ok(CoverInfo { url })
            },
        }
    }
}

} // verus!
