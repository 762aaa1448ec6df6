use tuidal::player::{Player, PlayerState, TrackInfo};

fn info(duration: u64) -> TrackInfo {
    TrackInfo {
        title: "T".into(),
        artist: "A".into(),
        album: "B".into(),
        duration,
        bit_depth: 16,
        sample_rate: 44100,
        codec: "flac".into(),
    }
}

const SEC: u128 = 1_000_000_000;

#[test]
fn a_new_player_is_stopped_at_85() {
    let p = Player::new();
    assert_eq!(p.state, PlayerState::Stopped);
    assert!(p.current.is_none());
    assert_eq!(p.volume, 85);
    assert_eq!(p.elapsed, 0);
    assert!(p.last_tick.is_none());
}

#[test]
fn volume_commands_and_limits() {
    let mut p = Player::new();
    assert_eq!(p.volume_up(), r#"{"command":["set_property","volume",90]}"#);
    assert_eq!(p.volume_up(), r#"{"command":["set_property","volume",95]}"#);
    assert_eq!(p.volume_up(), r#"{"command":["set_property","volume",100]}"#);
    assert_eq!(p.volume_up(), r#"{"command":["set_property","volume",100]}"#);
    assert_eq!(p.volume, 100);
    assert_eq!(p.set_volume(250), r#"{"command":["set_property","volume",100]}"#);
    assert_eq!(p.set_volume(3), r#"{"command":["set_property","volume",3]}"#);
    assert_eq!(p.volume_down(), r#"{"command":["set_property","volume",0]}"#);
    assert_eq!(p.volume, 0);
}

#[test]
fn play_pause_and_resume() {
    let mut p = Player::new();
    assert!(p.toggle_pause(5).is_none());
    p.begin_play(info(200), 1_000);
    assert_eq!(p.state, PlayerState::Stopped);
    assert_eq!(p.last_tick, Some(1_000));
    p.launched(true);
    assert_eq!(p.state, PlayerState::Playing);
    assert_eq!(p.toggle_pause(2_000).unwrap(), r#"{"command":["set_property","pause",true]}"#);
    assert_eq!(p.state, PlayerState::Paused);
    assert!(p.last_tick.is_none());
    assert_eq!(p.toggle_pause(3_000).unwrap(), r#"{"command":["set_property","pause",false]}"#);
    assert_eq!(p.state, PlayerState::Playing);
    assert_eq!(p.last_tick, Some(3_000));
}

#[test]
fn failed_launch_stays_stopped() {
    let mut p = Player::new();
    p.begin_play(info(200), 0);
    p.launched(false);
    assert_eq!(p.state, PlayerState::Stopped);
    assert!(p.current.is_some());
}

#[test]
fn the_clock_runs_only_while_playing() {
    let mut p = Player::new();
    p.begin_play(info(200), 1 * SEC);
    p.launched(true);
    p.tick(3 * SEC, false);
    assert_eq!(p.elapsed, 2 * SEC);
    assert_eq!(p.elapsed_secs(), 2);
    p.toggle_pause(3 * SEC);
    p.tick(10 * SEC, false);
    assert_eq!(p.elapsed, 2 * SEC);
    p.toggle_pause(20 * SEC);
    p.tick(21 * SEC, false);
    assert_eq!(p.elapsed, 3 * SEC);
    p.tick(22 * SEC, true);
    assert_eq!(p.state, PlayerState::Stopped);
    assert_eq!(p.elapsed, 4 * SEC);
    assert!(p.last_tick.is_none());
}

#[test]
fn seeking() {
    let mut p = Player::new();
    assert_eq!(p.seek_forward(), r#"{"command":["seek",10,"relative"]}"#);
    assert_eq!(p.elapsed, 0);
    p.begin_play(info(15), 0);
    p.seek_forward();
    assert_eq!(p.elapsed, 10 * SEC);
    p.seek_forward();
    assert_eq!(p.elapsed, 15 * SEC);
    assert_eq!(p.seek_backward(), r#"{"command":["seek",-10,"relative"]}"#);
    assert_eq!(p.elapsed, 5 * SEC);
    p.seek_backward();
    assert_eq!(p.elapsed, 0);
    assert_eq!(p.seek_to(125), r#"{"command":["seek",125,"absolute"]}"#);
    assert_eq!(p.elapsed, 125 * SEC);
    assert_eq!(p.elapsed_str(), "2:05");
}

#[test]
fn stop_resets_the_clock() {
    let mut p = Player::new();
    p.begin_play(info(100), 0);
    p.launched(true);
    p.seek_to(30);
    p.stop();
    assert_eq!(p.state, PlayerState::Stopped);
    assert_eq!(p.elapsed, 0);
    assert!(p.last_tick.is_none());
    assert!(p.current.is_some());
    assert_eq!(Player::quit_command(), r#"{"command":["quit"]}"#);
}

#[test]
fn process_arguments() {
    let p = Player::new();
    assert_eq!(
        p.mpv_args("https://s/1.flac", true),
        vec![
            "--no-video",
            "--really-quiet",
            "--input-media-keys=no",
            "--input-ipc-server=/tmp/tuidal-mpv.sock",
            "--volume=85",
            "--audio-device=alsa/default",
            "https://s/1.flac",
        ]
    );
    assert_eq!(p.mpv_args("u", false).len(), 6);
    assert_eq!(
        Player::ffplay_args("u"),
        vec!["-nodisp", "-autoexit", "-loglevel", "quiet", "u"]
    );
}
