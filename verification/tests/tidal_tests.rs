use tuidal::tidal::{
    Album, Artist, AuthPollResp, AuthStartResp, CoverResp, FavAlbum, Quality, StreamResp,
    TidalClient, TidalError, TidalRequest, Track,
};

fn track(id: u64, title: &str, artists: &[&str], duration: u64, quality: Option<&str>) -> Track {
    Track {
        id,
        title: title.to_string(),
        duration,
        track_number: None,
        artists: artists
            .iter()
            .enumerate()
            .map(|(i, n)| Artist { id: i as u64, name: n.to_string() })
            .collect(),
        album: Album { id: 1, title: "Album".to_string() },
        audio_quality: quality.map(|q| q.to_string()),
        explicit: None,
    }
}

#[test]
fn quality_names() {
    assert_eq!(Quality::HiResLossless.as_api_str(), "HI_RES_LOSSLESS");
    assert_eq!(Quality::Lossless.as_api_str(), "LOSSLESS");
    assert_eq!(Quality::High.as_api_str(), "HIGH");
    assert_eq!(Quality::HiResLossless.label(), "HiRes FLAC 24bit");
    assert_eq!(Quality::Lossless.label(), "FLAC 16bit/44.1kHz");
    assert_eq!(Quality::High.label(), "AAC 320kbps");
}

#[test]
fn artist_names_are_joined() {
    assert_eq!(track(1, "t", &[], 0, None).artist_names(), "");
    assert_eq!(track(1, "t", &["Daft Punk"], 0, None).artist_names(), "Daft Punk");
    assert_eq!(
        track(1, "t", &["A", "B", "C"], 0, None).artist_names(),
        "A, B, C"
    );
    let album = FavAlbum {
        id: 3,
        title: "X".to_string(),
        number_of_tracks: 2,
        duration: 100,
        artists: vec![
            Artist { id: 1, name: "Simon".to_string() },
            Artist { id: 2, name: "Garfunkel".to_string() },
        ],
        cover_url: None,
    };
    assert_eq!(album.artist_names(), "Simon, Garfunkel");
}

#[test]
fn durations() {
    assert_eq!(track(1, "t", &[], 0, None).duration_str(), "0:00");
    assert_eq!(track(1, "t", &[], 61, None).duration_str(), "1:01");
    assert_eq!(track(1, "t", &[], 245, None).duration_str(), "4:05");
}

#[test]
fn quality_icons() {
    assert_eq!(track(1, "t", &[], 0, Some("HI_RES_LOSSLESS")).quality_icon(), "◈");
    assert_eq!(track(1, "t", &[], 0, Some("LOSSLESS")).quality_icon(), "◆");
    assert_eq!(track(1, "t", &[], 0, Some("HIGH")).quality_icon(), "◇");
    assert_eq!(track(1, "t", &[], 0, None).quality_icon(), "◇");
}

#[test]
fn track_clone_keeps_everything() {
    let t = track(7, "Title", &["A", "B"], 99, Some("LOSSLESS"));
    let c = t.clone();
    assert_eq!(c.id, 7);
    assert_eq!(c.title, "Title");
    assert_eq!(c.artist_names(), "A, B");
    assert_eq!(c.album.title, "Album");
    assert_eq!(c.audio_quality.as_deref(), Some("LOSSLESS"));
}

#[test]
fn client_paths() {
    let c = TidalClient::new(Some("/opt/bin/tidal.py".into()), Some("/home/x/tidal.py".into()), None);
    assert_eq!(c.script_path, "/opt/bin/tidal.py");
    assert_eq!(c.python_path, "python3");
    assert_eq!(c.quality, Quality::Lossless);
    let c = TidalClient::new(None, Some("/home/x/tidal.py".into()), Some("/usr/bin/python3.12".into()));
    assert_eq!(c.script_path, "/home/x/tidal.py");
    assert_eq!(c.python_path, "/usr/bin/python3.12");
    let c = TidalClient::new(None, None, None);
    assert_eq!(c.script_path, "tidal.py");
    let c = TidalClient::with_path_and_quality("s.py".into(), Quality::High, "py".into());
    assert_eq!(c.script_path, "s.py");
    assert_eq!(c.python_path, "py");
    assert_eq!(c.quality, Quality::High);
}

#[test]
fn request_arguments() {
    let c = TidalClient::with_path_and_quality("s.py".into(), Quality::HiResLossless, "py".into());
    assert_eq!(c.request_args(&TidalRequest::FavoriteTracks), vec!["fav_tracks"]);
    assert_eq!(c.request_args(&TidalRequest::FavoriteAlbums), vec!["fav_albums"]);
    assert_eq!(c.request_args(&TidalRequest::AlbumTracks(42)), vec!["album_tracks", "42"]);
    assert_eq!(c.request_args(&TidalRequest::AuthPoll), vec!["auth", "poll"]);
    assert_eq!(c.request_args(&TidalRequest::AuthStart), vec!["auth", "start"]);
    assert_eq!(
        c.request_args(&TidalRequest::Search { query: "the beatles".into(), limit: 20 }),
        vec!["search", "the beatles", "20"]
    );
    assert_eq!(
        c.request_args(&TidalRequest::Stream(123456789)),
        vec!["stream", "123456789", "HI_RES_LOSSLESS"]
    );
    assert_eq!(c.request_args(&TidalRequest::Cover(5)), vec!["cover", "5"]);
    assert_eq!(c.request_args(&TidalRequest::Playlists), vec!["playlists"]);
    assert_eq!(
        c.request_args(&TidalRequest::PlaylistTracks("u-u-i-d".into())),
        vec!["playlist_tracks", "u-u-i-d"]
    );
    assert_eq!(c.request_args(&TidalRequest::Mixes), vec!["mixes"]);
    assert_eq!(c.request_args(&TidalRequest::MixTracks("m1".into())), vec!["mix_tracks", "m1"]);
    assert_eq!(c.request_args(&TidalRequest::Radio(9)), vec!["radio", "9"]);
}

#[test]
fn output_is_trimmed_and_must_not_be_empty() {
    assert_eq!(TidalClient::read_output("  [1]\n").unwrap(), "[1]");
    assert!(matches!(TidalClient::read_output(" \n\t"), Err(TidalError::NoOutput)));
    assert!(matches!(TidalClient::read_output(""), Err(TidalError::NoOutput)));
}

#[test]
fn session_replies() {
    let yes = AuthPollResp { authenticated: Some(true), error: String::new() };
    let no = AuthPollResp { authenticated: Some(false), error: String::new() };
    let none = AuthPollResp { authenticated: None, error: "x".into() };
    assert!(TidalClient::session_from(&yes).is_ok());
    assert!(matches!(TidalClient::session_from(&no), Err(TidalError::NoSession)));
    assert!(matches!(TidalClient::session_from(&none), Err(TidalError::NoSession)));
    assert!(TidalClient::poll_from(&yes));
    assert!(!TidalClient::poll_from(&no));
    assert!(!TidalClient::poll_from(&none));
}

#[test]
fn device_auth_replies() {
    let ok = AuthStartResp { url: Some("link.tidal.com/ABCDE".into()), code: Some("ABCDE".into()), error: None };
    let (device, code, url) = TidalClient::device_auth_from(&ok).unwrap();
    assert_eq!(device, "pending");
    assert_eq!(code, "ABCDE");
    assert_eq!(url, "link.tidal.com/ABCDE");
    let no_code = AuthStartResp { url: Some("u".into()), code: None, error: None };
    assert_eq!(TidalClient::device_auth_from(&no_code).unwrap().1, "");
    let no_url = AuthStartResp { url: None, code: Some("C".into()), error: None };
    assert!(matches!(TidalClient::device_auth_from(&no_url), Err(TidalError::MissingAuthUrl)));
    let err = AuthStartResp { url: Some("u".into()), code: None, error: Some("denied".into()) };
    match TidalClient::device_auth_from(&err) {
        Err(TidalError::Script(e)) => assert_eq!(e, "denied"),
        _ => panic!("expected the script's error"),
    }
}

#[test]
fn stream_replies() {
    let full = StreamResp {
        url: Some("https://s/1.flac".into()),
        codec: Some("mqa".into()),
        bit_depth: Some(24),
        sample_rate: Some(96000),
        error: None,
    };
    let info = TidalClient::stream_info_from(&full).unwrap();
    assert_eq!(info.url, "https://s/1.flac");
    assert_eq!(info.codec, "mqa");
    assert_eq!(info.bit_depth, 24);
    assert_eq!(info.sample_rate, 96000);
    let bare = StreamResp { url: Some("u".into()), codec: None, bit_depth: None, sample_rate: None, error: None };
    let info = TidalClient::stream_info_from(&bare).unwrap();
    assert_eq!(info.codec, "flac");
    assert_eq!(info.bit_depth, 16);
    assert_eq!(info.sample_rate, 44100);
    let no_url = StreamResp { url: None, codec: None, bit_depth: None, sample_rate: None, error: None };
    assert!(matches!(TidalClient::stream_info_from(&no_url), Err(TidalError::MissingStreamUrl)));
    let err = StreamResp { url: Some("u".into()), codec: None, bit_depth: None, sample_rate: None, error: Some("geo".into()) };
    assert!(matches!(TidalClient::stream_info_from(&err), Err(TidalError::Script(e)) if e == "geo"));
}

#[test]
fn cover_replies() {
    let ok = CoverResp { url: Some("https://c/1.jpg".into()), error: None };
    assert_eq!(TidalClient::cover_from(&ok).unwrap().url, "https://c/1.jpg");
    let none = CoverResp { url: None, error: None };
    assert_eq!(TidalClient::cover_from(&none).unwrap().url, "");
    let err = CoverResp { url: Some("u".into()), error: Some("no cover".into()) };
    assert!(matches!(TidalClient::cover_from(&err), Err(TidalError::Script(e)) if e == "no cover"));
}

#[test]
fn error_messages() {
    assert_eq!(TidalError::NoOutput.message(), "tidal.py no produjo output");
    assert_eq!(TidalError::NoSession.message(), "Sin sesión activa");
    assert_eq!(TidalError::MissingAuthUrl.message(), "Sin URL de auth");
    assert_eq!(TidalError::MissingStreamUrl.message(), "Sin URL de stream");
    assert_eq!(TidalError::Script("boom".into()).message(), "boom");
    assert_eq!(
        TidalError::Json { detail: "EOF".into(), output: "[".into() }.message(),
        "JSON error: EOF\noutput: ["
    );
    assert_eq!(
        TidalError::Launch { detail: "not found".into(), script: "tidal.py".into() }.message(),
        "No se pudo ejecutar python3: not found\n¿Está tidal.py en 'tidal.py'?"
    );
    assert_eq!(TidalError::LoginLaunch("x".into()).message(), "Error lanzando python3: x");
    assert_eq!(TidalError::ReadOutput("y".into()).message(), "Error leyendo output: y");
    assert_eq!(TidalError::Task("z".into()).message(), "z");
}
