use tuidal::app::{
    cover_event, cover_event_from, poll_event, stream_event, ApiCommand, ApiTrack, App, AppConfig, AppEvent,
    CollectionView, Effect, InputMode, Key, RepeatMode, Tab,
};
use tuidal::i18n::Lang;
use tuidal::player::{PlayerState, TrackInfo};
use tuidal::tidal::{
    Album, Artist, CoverInfo, FavAlbum, Mix, Playlist, Quality, StreamInfo, TidalClient,
    TidalError, Track,
};

fn track(id: u64, title: &str) -> Track {
    Track {
        id,
        title: title.to_string(),
        duration: 180,
        track_number: Some(1),
        artists: vec![
            Artist { id: 1, name: "Daft Punk".into() },
            Artist { id: 2, name: "Pharrell".into() },
        ],
        album: Album { id: 9, title: "RAM".into() },
        audio_quality: Some("LOSSLESS".into()),
        explicit: Some(false),
    }
}

fn app(lang: Lang) -> App {
    App::new(
        AppConfig { lang },
        TidalClient::with_path_and_quality("tidal.py".into(), Quality::Lossless, "python3".into()),
    )
}

fn logged_in(lang: Lang) -> App {
    let mut a = app(lang);
    a.handle_event(AppEvent::AuthDone, 0);
    a
}

fn playlist(uuid: &str) -> Playlist {
    Playlist {
        uuid: uuid.into(),
        title: "P".into(),
        number_of_tracks: 1,
        duration: 1,
        playlist_type: "USER".into(),
        public_playlist: None,
        image: None,
        square_image: None,
    }
}

fn mix(id: &str) -> Mix {
    Mix { id: id.into(), title: "M".into(), sub_title: None }
}

fn fetched(e: &Effect) -> Option<(u64, usize, u64)> {
    match e {
        Effect::FetchStream { track, queue_index, generation } => Some((track.id, *queue_index, *generation)),
        _ => None,
    }
}

#[test]
fn a_new_app_starts_on_the_search_screen() {
    let a = app(Lang::De);
    assert_eq!(a.lang, Lang::De);
    assert_eq!(a.active_tab, Tab::Search);
    assert_eq!(a.input_mode, InputMode::Normal);
    assert_eq!(a.repeat, RepeatMode::All);
    assert!(!a.shuffle && !a.authenticated && !a.loading);
    assert_eq!(a.player.volume, 85);
    assert_eq!(a.stream_generation, 0);
    assert_eq!(a.collection_view, CollectionView::Tracks);
    assert_eq!(AppConfig::default().lang, Lang::Es);
    assert_eq!(RepeatMode::default(), RepeatMode::All);
}

#[test]
fn tabs_cycle_and_leaving_the_library_resets_its_view() {
    let mut a = app(Lang::En);
    a.selected = 3;
    a.next_tab();
    assert_eq!(a.active_tab, Tab::Queue);
    assert_eq!(a.selected, 0);
    a.next_tab();
    assert_eq!(a.active_tab, Tab::Now);
    a.next_tab();
    assert_eq!(a.active_tab, Tab::Library);
    a.collection_view = CollectionView::Albums;
    a.next_tab();
    assert_eq!(a.active_tab, Tab::Search);
    assert_eq!(a.collection_view, CollectionView::Tracks);
}

#[test]
fn search_results_and_selection_wrap_around() {
    let mut a = app(Lang::En);
    a.handle_event(AppEvent::SearchDone(Ok(vec![track(1, "a"), track(2, "b"), track(3, "c")])), 0);
    assert_eq!(a.status_msg, "3 results");
    assert_eq!(a.current_list_len(), 3);
    a.prev_track();
    assert_eq!(a.selected, 2);
    a.next_track();
    assert_eq!(a.selected, 0);
    a.next_track();
    assert_eq!(a.selected, 1);
    a.handle_event(AppEvent::SearchDone(Ok(vec![])), 0);
    assert_eq!(a.status_msg, "No results");
    a.handle_event(AppEvent::SearchDone(Err("timeout".into())), 0);
    assert_eq!(a.status_msg, "✗ Search error: timeout");
}

#[test]
fn playing_needs_a_login() {
    let mut a = app(Lang::Es);
    a.search_results = vec![track(1, "a")];
    let effects = a.play_selected_bg();
    assert!(effects.is_empty());
    assert_eq!(a.status_msg, "Inicia sesión primero (L)");
}

#[test]
fn a_search_result_is_queued_once_and_streamed() {
    let mut a = logged_in(Lang::En);
    a.handle_event(AppEvent::SearchDone(Ok(vec![track(1, "One"), track(2, "Two")])), 0);
    a.next_track();
    let effects = a.play_selected_bg();
    assert_eq!(a.queue.len(), 1);
    assert_eq!(a.queue[0].id, 2);
    assert_eq!(effects.len(), 3);
    assert!(matches!(effects[0], Effect::ClearCoverProtocol));
    assert!(matches!(effects[1], Effect::StopPlayer));
    assert_eq!(fetched(&effects[2]), Some((2, 0, 1)));
    assert_eq!(a.status_msg, "⟳ Getting stream: Two...");
    assert!(a.loading);
    let effects = a.play_selected_bg();
    assert_eq!(a.queue.len(), 1);
    assert_eq!(fetched(&effects[2]), Some((2, 0, 2)));
}

#[test]
fn a_fresh_stream_plays_and_a_stale_one_is_ignored() {
    let mut a = logged_in(Lang::En);
    a.handle_event(AppEvent::PlaylistTracksLoaded(vec![track(1, "One"), track(2, "Two")]), 0);
    assert_eq!(a.status_msg, "✓ 2 tracks loaded");
    a.selected = 1;
    let effects = a.play_selected_bg();
    assert_eq!(fetched(&effects[2]), Some((2, 1, 1)));
    let info = StreamInfo { url: "https://s/2".into(), bit_depth: 24, sample_rate: 96000, codec: "flac".into() };
    let stale = a.handle_event(
        AppEvent::StreamReady { track: track(2, "Two"), info: info.clone(), queue_index: 1, generation: 0 },
        5,
    );
    assert!(stale.is_empty());
    assert_eq!(a.queue_index, None);
    let effects = a.handle_event(
        AppEvent::StreamReady { track: track(2, "Two"), info, queue_index: 1, generation: 1 },
        7,
    );
    assert_eq!(a.queue_index, Some(1));
    assert_eq!(a.current_track_id, Some(2));
    assert_eq!(a.status_msg, "▶ Daft Punk, Pharrell — Two | 24/96000 FLAC");
    assert!(a.auto_advance && !a.loading);
    let ti: &TrackInfo = a.player.current.as_ref().unwrap();
    assert_eq!(ti.artist, "Daft Punk, Pharrell");
    assert_eq!(ti.album, "RAM");
    assert_eq!(a.player.last_tick, Some(7));
    assert_eq!(effects.len(), 3);
    assert!(matches!(effects[0], Effect::StopPlayer));
    assert!(matches!(&effects[1], Effect::LaunchPlayer { url } if url == "https://s/2"));
    assert!(matches!(effects[2], Effect::FetchCover { track_id: 2 }));
    a.player.launched(true);
    assert_eq!(a.player.state, PlayerState::Playing);
}

#[test]
fn next_and_previous_follow_the_repeat_mode() {
    let mut a = logged_in(Lang::En);
    a.handle_event(AppEvent::PlaylistTracksLoaded(vec![track(1, "a"), track(2, "b"), track(3, "c")]), 0);
    // no current position: next starts at the top, previous at the bottom
    assert_eq!(fetched(&a.play_next_with(0)[2]).unwrap().1, 0);
    assert_eq!(fetched(&a.play_prev_bg()[2]).unwrap().1, 2);
    a.queue_index = Some(2);
    assert_eq!(fetched(&a.play_next_with(0)[2]).unwrap().1, 0);
    assert_eq!(fetched(&a.play_prev_bg()[2]).unwrap().1, 1);
    a.repeat = RepeatMode::Off;
    assert!(a.play_next_with(0).is_empty());
    a.queue_index = Some(0);
    assert_eq!(fetched(&a.play_next_with(0)[2]).unwrap().1, 1);
    a.repeat = RepeatMode::One;
    assert_eq!(fetched(&a.play_next_with(0)[2]).unwrap().1, 0);
    a.queue_index = Some(0);
    assert_eq!(fetched(&a.play_prev_bg()[2]).unwrap().1, 2);
}

#[test]
fn shuffle_avoids_the_current_track() {
    let mut a = logged_in(Lang::En);
    a.handle_event(AppEvent::PlaylistTracksLoaded(vec![track(1, "a"), track(2, "b"), track(3, "c")]), 0);
    a.queue_index = Some(1);
    assert_eq!(a.random_queue_index(4), 2);
    assert_eq!(a.random_queue_index(7), 2);
    assert_eq!(a.random_queue_index(6), 0);
    a.shuffle = true;
    assert_eq!(fetched(&a.play_next_with(4)[2]).unwrap().1, 2);
    for _ in 0..20 {
        a.queue_index = Some(1);
        let effects = a.play_next_bg();
        assert_ne!(fetched(&effects[2]).unwrap().1, 1);
    }
}

#[test]
fn login_flow() {
    let mut a = app(Lang::En);
    let effects = a.handle_key(Key::Char('L'), 0);
    assert!(matches!(effects[0], Effect::StartLogin));
    assert_eq!(a.status_msg, "Starting login...");
    let effects = a.handle_event(
        AppEvent::AuthStarted { url: "link.tidal.com/AB".into(), code: "AB".into(), device_code: "pending".into() },
        0,
    );
    assert!(matches!(&effects[0], Effect::OpenBrowser { url } if url == "https://link.tidal.com/AB"));
    a.browser_result(None);
    assert_eq!(a.status_msg, "Browser opened. Code: AB");
    a.browser_result(Some("no display".into()));
    assert_eq!(a.status_msg, "Could not open browser (no display): link.tidal.com/AB");
    let effects = a.on_auth_tick();
    assert!(matches!(&effects[0], Effect::PollAuth { device_code } if device_code == "pending"));
    a.handle_event(AppEvent::AuthDone, 0);
    assert!(a.authenticated);
    assert!(a.device_code.is_none() && a.user_code.is_none() && a.auth_url.is_none());
    assert_eq!(a.status_msg, "✓ Authenticated with Tidal");
    assert!(a.on_auth_tick().is_empty());
    let effects = a.handle_event(
        AppEvent::AuthStarted { url: "http://x".into(), code: "C".into(), device_code: "d".into() },
        0,
    );
    assert!(matches!(&effects[0], Effect::OpenBrowser { url } if url == "http://x"));
}

#[test]
fn library_entries() {
    let mut a = logged_in(Lang::En);
    let effects = a.handle_key(Key::Char('i'), 0);
    assert!(matches!(effects[0], Effect::LoadLibrary));
    assert_eq!(a.status_msg, "⟳ Loading library...");
    a.handle_event(AppEvent::LibraryLoaded { playlists: vec![playlist("p0")], mixes: vec![mix("m0"), mix("m1")] }, 0);
    assert_eq!(a.active_tab, Tab::Library);
    assert_eq!(a.status_msg, "✓ 1 playlists, 2 mixes");
    let effects = a.handle_key(Key::Enter, 0);
    assert!(matches!(&effects[0], Effect::LoadPlaylistTracks { uuid } if uuid == "p0"));
    assert_eq!(a.status_msg, "⟳ Loading playlist...");
    a.handle_key(Key::Down, 0);
    a.handle_key(Key::Down, 0);
    assert_eq!(a.library_selected, 2);
    let effects = a.handle_key(Key::Enter, 0);
    assert!(matches!(&effects[0], Effect::LoadMixTracks { mix_id } if mix_id == "m1"));
    a.handle_key(Key::Down, 0);
    assert_eq!(a.library_selected, 0);
    a.handle_key(Key::Up, 0);
    assert_eq!(a.library_selected, 2);
    let effects = a.handle_key(Key::Char('A'), 0);
    assert!(matches!(effects[0], Effect::LoadFavAlbums));
    let album = FavAlbum { id: 77, title: "Discovery".into(), number_of_tracks: 14, duration: 3600, artists: vec![], cover_url: None };
    a.handle_event(AppEvent::FavAlbumsLoaded(vec![album]), 0);
    assert_eq!(a.collection_view, CollectionView::Albums);
    assert_eq!(a.status_msg, "✓ 1 albums in collection");
    let effects = a.handle_key(Key::Enter, 0);
    assert!(matches!(effects[0], Effect::LoadAlbumTracks { album_id: 77 }));
    assert_eq!(a.status_msg, "⟳ Loading Discovery...");
    a.library_selected = 9;
    a.collection_view = CollectionView::Tracks;
    assert!(a.library_select_enter().is_empty());
}

#[test]
fn logged_out_loads_do_nothing() {
    let mut a = app(Lang::En);
    assert!(a.load_library_bg().is_empty());
    assert!(a.load_fav_tracks_bg().is_empty());
    assert!(a.load_fav_albums_bg().is_empty());
    assert!(!a.loading);
    let effects = a.do_search_bg();
    assert!(effects.is_empty());
    assert_eq!(a.status_msg, "Log in first with 'L'");
}

#[test]
fn typing_a_search() {
    let mut a = logged_in(Lang::En);
    a.handle_key(Key::Char('/'), 0);
    assert_eq!(a.input_mode, InputMode::Search);
    for c in "abbx".chars() {
        a.handle_key(Key::Char(c), 0);
    }
    a.handle_key(Key::Backspace, 0);
    assert_eq!(a.search_input, "abb");
    let effects = a.handle_key(Key::Enter, 0);
    assert_eq!(a.input_mode, InputMode::Normal);
    assert!(matches!(&effects[0], Effect::Search { query, limit: 20 } if query == "abb"));
    assert_eq!(a.status_msg, "Searching \"abb\"...");
    a.handle_key(Key::Char('s'), 0);
    assert_eq!(a.search_input, "");
    a.handle_key(Key::Esc, 0);
    assert_eq!(a.input_mode, InputMode::Normal);
}

#[test]
fn keys_for_quality_language_and_quitting() {
    let mut a = app(Lang::Es);
    a.handle_key(Key::Char('3'), 0);
    assert_eq!(a.tidal.quality, Quality::High);
    assert_eq!(a.status_msg, "Calidad: AAC 320kbps");
    let effects = a.handle_key(Key::Char('`'), 0);
    assert_eq!(a.lang, Lang::En);
    assert_eq!(a.status_msg, "Language: English");
    assert!(matches!(effects[0], Effect::SaveConfig { config: AppConfig { lang: Lang::En } }));
    let effects = a.handle_key(Key::Char('+'), 0);
    assert!(matches!(&effects[0], Effect::PlayerCommand(c) if c == r#"{"command":["set_property","volume",90]}"#));
    let effects = a.handle_key(Key::Interrupt, 0);
    assert!(matches!(effects[0], Effect::StopPlayer) && matches!(effects[1], Effect::EndSession));
    let effects = a.handle_key(Key::Char('q'), 0);
    assert!(matches!(effects[0], Effect::StopPlayer) && matches!(effects[1], Effect::ExitProcess));
    assert!(a.handle_key(Key::Char('z'), 0).is_empty());
}

#[test]
fn remote_commands() {
    let mut a = logged_in(Lang::En);
    a.handle_event(AppEvent::ApiCmd(ApiCommand::ToggleShuffle), 0);
    assert!(a.shuffle);
    assert_eq!(a.status_msg, "Shuffle: on");
    a.handle_event(AppEvent::ApiCmd(ApiCommand::ToggleShuffle), 0);
    assert_eq!(a.status_msg, "Shuffle: off");
    a.handle_event(AppEvent::ApiCmd(ApiCommand::CycleRepeat), 0);
    assert_eq!(a.repeat, RepeatMode::One);
    assert_eq!(a.status_msg, "Repeat: one");
    a.handle_event(AppEvent::ApiCmd(ApiCommand::CycleRepeat), 0);
    assert_eq!(a.status_msg, "Repeat: off");
    a.handle_event(AppEvent::ApiCmd(ApiCommand::CycleRepeat), 0);
    assert_eq!(a.status_msg, "Repeat: all");
    let effects = a.handle_event(AppEvent::ApiCmd(ApiCommand::VolumeSet(42)), 0);
    assert_eq!(a.player.volume, 42);
    assert!(matches!(&effects[0], Effect::PlayerCommand(c) if c == r#"{"command":["set_property","volume",42]}"#));
    let effects = a.handle_event(AppEvent::ApiCmd(ApiCommand::SeekTo(61)), 0);
    assert!(matches!(&effects[0], Effect::PlayerCommand(c) if c == r#"{"command":["seek",61,"absolute"]}"#));
    assert!(a.handle_event(AppEvent::ApiCmd(ApiCommand::PlayPause), 0).is_empty());
    let t = ApiTrack { id: 5, title: "T".into(), artist: "A".into(), album: "B".into(), duration: 60 };
    let effects = a.handle_event(AppEvent::ApiCmd(ApiCommand::PlayTrack(t)), 0);
    assert_eq!(a.queue.len(), 1);
    assert_eq!(a.queue[0].artist_names(), "A");
    assert_eq!(a.queue[0].album.title, "B");
    assert_eq!(fetched(&effects[2]), Some((5, 0, 1)));
    let t = ApiTrack { id: 5, title: "T".into(), artist: "A".into(), album: "B".into(), duration: 60 };
    a.handle_event(AppEvent::ApiCmd(ApiCommand::PlayTrack(t)), 0);
    assert_eq!(a.queue.len(), 1);
}

#[test]
fn other_events() {
    let mut a = app(Lang::En);
    a.handle_event(AppEvent::StatusMsg("hello".into()), 0);
    assert_eq!(a.status_msg, "hello");
    a.loading = true;
    a.handle_event(AppEvent::StreamError("gone".into()), 0);
    assert_eq!(a.status_msg, "✗ Stream error: gone");
    assert!(!a.loading);
    a.handle_event(AppEvent::AuthError("bad".into()), 0);
    assert_eq!(a.status_msg, "✗ Auth error: bad");
    a.handle_event(AppEvent::FavTracksLoaded(vec![track(1, "x")]), 0);
    assert_eq!(a.status_msg, "✓ 1 favorite tracks in queue");
    assert_eq!(a.active_tab, Tab::Queue);
    let effects = a.handle_event(AppEvent::CoverError, 0);
    assert!(matches!(effects[0], Effect::ClearCoverProtocol));
    assert!(a.cover_image.is_none());
}

#[test]
fn a_track_that_ended_moves_on_once() {
    let mut a = logged_in(Lang::En);
    a.handle_event(AppEvent::PlaylistTracksLoaded(vec![track(1, "a"), track(2, "b")]), 0);
    assert!(a.auto_advance_step().is_empty());
    a.queue_index = Some(0);
    a.auto_advance = true;
    let effects = a.auto_advance_step();
    assert_eq!(fetched(&effects[2]).unwrap().1, 1);
    assert!(!a.auto_advance);
    assert!(a.auto_advance_step().is_empty());
}

#[test]
fn session_check() {
    let mut a = app(Lang::En);
    a.begin_session_check();
    assert_eq!(a.status_msg, "Loading session...");
    a.session_checked(false);
    assert_eq!(a.status_msg, "Press 'L' to log in to Tidal");
    assert!(!a.authenticated);
    a.session_checked(true);
    assert_eq!(a.status_msg, "✓ Session active");
    assert!(a.authenticated);
}

#[test]
fn status_snapshot() {
    let mut a = logged_in(Lang::En);
    let s = a.api_status_snapshot();
    assert_eq!(s.state, "stopped");
    assert!(s.title.is_none() && s.codec.is_none());
    a.handle_event(AppEvent::PlaylistTracksLoaded(vec![track(1, "a"), track(2, "b")]), 0);
    a.selected = 0;
    a.play_selected_bg();
    let info = StreamInfo { url: "u".into(), bit_depth: 16, sample_rate: 44100, codec: "flac".into() };
    a.handle_event(AppEvent::StreamReady { track: track(1, "a"), info, queue_index: 0, generation: 1 }, 0);
    a.player.launched(true);
    a.tick(3_500_000_000, false);
    let s = a.api_status_snapshot();
    assert_eq!(s.state, "playing");
    assert_eq!(s.title.as_deref(), Some("a"));
    assert_eq!(s.artist.as_deref(), Some("Daft Punk, Pharrell"));
    assert_eq!(s.duration, Some(180));
    assert_eq!(s.elapsed, 3);
    assert_eq!(s.volume, 85);
    assert_eq!(s.codec.as_deref(), Some("flac"));
    assert_eq!(s.queue.len(), 2);
    assert_eq!(s.queue[1].id, 2);
    assert_eq!(s.queue_index, Some(0));
    assert_eq!(s.repeat, RepeatMode::All);
    assert!(s.authenticated);
}

#[test]
fn cover_pictures() {
    let info = CoverInfo { url: "https://c/1.jpg".into() };
    assert!(matches!(cover_event(info.clone(), b"not a picture"), AppEvent::CoverError));
    let mut png = Vec::new();
    image::RgbImage::new(2, 2)
        .write_to(&mut std::io::Cursor::new(&mut png), image::ImageFormat::Png)
        .unwrap();
    match cover_event(info, &png) {
        AppEvent::CoverReady { info, image } => {
            assert_eq!(info.url, "https://c/1.jpg");
            assert_eq!(image.width(), 2);
        }
        _ => panic!("the picture should decode"),
    }
    let mut a = app(Lang::En);
    let img = image::DynamicImage::new_rgb8(1, 1);
    a.last_img_area = Some((3, 4));
    let effects = a.handle_event(AppEvent::CoverReady { info: CoverInfo { url: "x".into() }, image: img }, 0);
    assert!(matches!(effects[0], Effect::ClearCoverProtocol));
    assert!(a.cover_image.is_some() && a.last_img_area.is_none());
    assert_eq!(a.cover_info.as_ref().unwrap().url, "x");
}

#[test]
fn decode_outcomes_become_events() {
    let img = image::DynamicImage::new_rgb8(3, 1);
    match cover_event_from(CoverInfo { url: "c".into() }, Ok(img)) {
        AppEvent::CoverReady { info, image } => {
            assert_eq!(info.url, "c");
            assert_eq!(image.width(), 3);
        }
        _ => panic!("a decoded picture makes CoverReady"),
    }
    let err = image::load_from_memory(b"garbage").unwrap_err();
    assert!(matches!(cover_event_from(CoverInfo { url: "c".into() }, Err(err)), AppEvent::CoverError));
}

#[test]
fn answers_become_events() {
    match stream_event(track(1, "a"), 0, 3, Err(TidalError::MissingStreamUrl)) {
        AppEvent::StreamError(e) => assert_eq!(e, "Sin URL de stream"),
        _ => panic!(),
    }
    let info = StreamInfo { url: "u".into(), bit_depth: 16, sample_rate: 44100, codec: "flac".into() };
    assert!(matches!(stream_event(track(1, "a"), 0, 3, Ok(info)), AppEvent::StreamReady { generation: 3, queue_index: 0, .. }));
    assert!(matches!(poll_event(Ok(true)), Some(AppEvent::AuthDone)));
    assert!(poll_event(Ok(false)).is_none());
    match poll_event(Err(TidalError::NoOutput)) {
        Some(AppEvent::StatusMsg(m)) => assert_eq!(m, "Error poll: tidal.py no produjo output"),
        _ => panic!(),
    }
}
