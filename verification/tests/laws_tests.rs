use tuidal::app::{ApiCommand, App, AppConfig, AppEvent, RepeatMode, Tab};
use tuidal::i18n::Lang;
use tuidal::player::{Player, PlayerState, TrackInfo};
use tuidal::text::trim;
use tuidal::tidal::{Album, Quality, StreamInfo, TidalClient, Track};

fn track(id: u64) -> Track {
    Track {
        id,
        title: format!("t{id}"),
        duration: 100,
        track_number: None,
        artists: vec![],
        album: Album { id: 0, title: "a".into() },
        audio_quality: None,
        explicit: None,
    }
}

fn app() -> App {
    let mut a = App::new(
        AppConfig { lang: Lang::En },
        TidalClient::with_path_and_quality("tidal.py".into(), Quality::Lossless, "python3".into()),
    );
    a.handle_event(AppEvent::AuthDone, 0);
    a
}

#[test]
fn four_language_changes_come_back() {
    for l in [Lang::Es, Lang::En, Lang::De, Lang::Ro] {
        assert_ne!(l.cycle(), l);
        assert_eq!(l.cycle().cycle().cycle().cycle(), l);
    }
}

#[test]
fn four_tab_changes_come_back() {
    let mut a = app();
    for t in [Tab::Search, Tab::Queue, Tab::Now, Tab::Library] {
        a.active_tab = t;
        for _ in 0..4 {
            a.next_tab();
        }
        assert_eq!(a.active_tab, t);
    }
}

#[test]
fn three_repeat_changes_come_back() {
    let mut a = app();
    for r in [RepeatMode::Off, RepeatMode::One, RepeatMode::All] {
        a.repeat = r;
        for _ in 0..3 {
            a.handle_event(AppEvent::ApiCmd(ApiCommand::CycleRepeat), 0);
        }
        assert_eq!(a.repeat, r);
    }
}

#[test]
fn pausing_twice_restores_the_state() {
    let mut p = Player::new();
    p.begin_play(
        TrackInfo { title: "t".into(), artist: "a".into(), album: "b".into(), duration: 10, bit_depth: 16, sample_rate: 44100, codec: "flac".into() },
        0,
    );
    p.launched(true);
    p.seek_to(3);
    p.toggle_pause(1);
    p.toggle_pause(2);
    assert_eq!(p.state, PlayerState::Playing);
    assert_eq!(p.elapsed, 3_000_000_000);
}

#[test]
fn volume_up_then_down_restores() {
    let mut p = Player::new();
    for v in [0u8, 7, 50, 95] {
        p.set_volume(v);
        p.volume_up();
        p.volume_down();
        assert_eq!(p.volume, v);
    }
    p.set_volume(98);
    p.volume_up();
    assert_eq!(p.volume, 100);
}

#[test]
fn seeking_forward_stays_within_the_track_and_time_never_runs_back() {
    let mut p = Player::new();
    p.begin_play(
        TrackInfo { title: "t".into(), artist: "a".into(), album: "b".into(), duration: 25, bit_depth: 16, sample_rate: 44100, codec: "flac".into() },
        0,
    );
    for _ in 0..5 {
        p.seek_forward();
        assert!(p.elapsed <= 25_000_000_000);
    }
    p.launched(true);
    let before = p.elapsed;
    p.tick(10, false);
    assert!(p.elapsed >= before);
    p.stop();
    let once = (p.state, p.elapsed, p.last_tick);
    p.stop();
    assert_eq!((p.state, p.elapsed, p.last_tick), once);
}

#[test]
fn selection_moves_are_inverse() {
    let mut a = app();
    a.handle_event(AppEvent::SearchDone(Ok((1..=4).map(track).collect())), 0);
    for i in 0..4 {
        a.selected = i;
        a.next_track();
        a.prev_track();
        assert_eq!(a.selected, i);
        a.prev_track();
        assert!(a.selected < 4);
        a.next_track();
        assert_eq!(a.selected, i);
    }
}

#[test]
fn shuffle_never_repeats_the_current_track() {
    let mut a = app();
    a.handle_event(AppEvent::PlaylistTracksLoaded((1..=5).map(track).collect()), 0);
    for current in 0..5 {
        a.queue_index = Some(current);
        for clock in 0..50u32 {
            let i = a.random_queue_index(clock);
            assert!(i < 5);
            assert_ne!(i, current);
        }
    }
}

#[test]
fn an_answer_to_an_earlier_request_is_ignored() {
    let mut a = app();
    a.handle_event(AppEvent::PlaylistTracksLoaded((1..=2).map(track).collect()), 0);
    a.play_selected_bg();
    a.next_track();
    a.play_selected_bg();
    assert_eq!(a.stream_generation, 2);
    let info = StreamInfo { url: "u".into(), bit_depth: 16, sample_rate: 44100, codec: "flac".into() };
    let effects = a.handle_event(AppEvent::StreamReady { track: track(1), info, queue_index: 0, generation: 1 }, 0);
    assert!(effects.is_empty());
    assert!(a.player.current.is_none());
    assert!(a.queue_index.is_none());
}

#[test]
fn a_track_is_queued_once() {
    let mut a = app();
    a.handle_event(AppEvent::SearchDone(Ok(vec![track(1), track(2)])), 0);
    a.play_selected_bg();
    a.play_selected_bg();
    a.play_selected_bg();
    assert_eq!(a.queue.len(), 1);
    assert_eq!(a.queue[0].id, 1);
}

#[test]
fn trimming_twice_is_trimming_once() {
    for s in ["  x y  ", "\n\n", "abc", "\t a \u{2028}"] {
        let once = trim(s);
        assert_eq!(trim(&once), once);
    }
}
