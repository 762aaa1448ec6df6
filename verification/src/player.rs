//! The playback state of the audio process (mpv, or ffplay where mpv cannot
//! start): what plays, whether it plays, the volume and the elapsed time, and
//! the JSON commands sent to mpv's control socket.
//!
//! The process itself is run by the program around the library; every
//! change of state here is paired with the command or the process action
//! that the caller performs.
use crate::app::Effect;
use crate::text::{cat3, decimal, decimal_string, minutes_seconds, minutes_seconds_string, texts};
use vstd::prelude::*;

verus! {

/// Whether something plays.
#[derive(Debug, Clone, Copy, PartialEq, Eq, Structural)]
pub enum PlayerState {
    Stopped,
    Playing,
    Paused,
}

/// What plays: the track's names, its length in seconds and its format.
#[derive(Debug)]
pub struct TrackInfo {
    pub title: String,
    pub artist: String,
    pub album: String,
    pub duration: u64,
    pub bit_depth: u32,
    pub sample_rate: u32,
    pub codec: String,
}

impl Clone for TrackInfo {
    fn clone(&self) -> (r: Self)
        ensures
            r == *self,
    {
        TrackInfo {
            title: self.title.clone(),
            artist: self.artist.clone(),
            album: self.album.clone(),
            duration: self.duration,
            bit_depth: self.bit_depth,
            sample_rate: self.sample_rate,
            codec: self.codec.clone(),
        }
    }
}

/// Nanoseconds in a second.
pub const NANOS_PER_SEC: u128 = 1_000_000_000;

/// The longest time that can elapse, in nanoseconds: that of the longest
/// `std::time::Duration`.
pub const MAX_ELAPSED: u128 = 18_446_744_073_709_551_615_999_999_999;

/// The step of a relative seek, in nanoseconds.
pub const SEEK_STEP: u128 = 10_000_000_000;

/// The loudest volume.
pub const MAX_VOLUME: u8 = 100;

/// The path of mpv's control socket.
pub open spec fn socket_path() -> Seq<char> {
    "/tmp/tuidal-mpv.sock"@
}

/// The command that pauses (`true`) or resumes (`false`) mpv.
pub open spec fn pause_command(pause: bool) -> Seq<char> {
    if pause {
        "{\"command\":[\"set_property\",\"pause\",true]}"@
    } else {
        "{\"command\":[\"set_property\",\"pause\",false]}"@
    }
}

/// The command that sets mpv's volume.
pub open spec fn volume_command(v: nat) -> Seq<char> {
    "{\"command\":[\"set_property\",\"volume\","@ + decimal(v) + "]}"@
}

/// The command that seeks ten seconds forward.
pub open spec fn seek_forward_command() -> Seq<char> {
    "{\"command\":[\"seek\",10,\"relative\"]}"@
}

/// The command that seeks ten seconds back.
pub open spec fn seek_backward_command() -> Seq<char> {
    "{\"command\":[\"seek\",-10,\"relative\"]}"@
}

/// The command that seeks to a second from the start.
pub open spec fn seek_to_command(secs: nat) -> Seq<char> {
    "{\"command\":[\"seek\","@ + decimal(secs) + ",\"absolute\"]}"@
}

/// The command that asks mpv to quit.
pub open spec fn quit_command() -> Seq<char> {
    "{\"command\":[\"quit\"]}"@
}

/// The arguments mpv is started with to play `url` at volume `v`, where
/// `linux` says whether the program runs on Linux.
pub open spec fn mpv_arg_list(v: nat, url: Seq<char>, linux: bool) -> Seq<Seq<char>> {
    seq![
        "--no-video"@,
        "--really-quiet"@,
        "--input-media-keys=no"@,
        "--input-ipc-server="@ + socket_path(),
        "--volume="@ + decimal(v),
    ] + (if linux {
        seq!["--audio-device=alsa/default"@]
    } else {
        Seq::empty()
    }) + seq![url]
}

/// The arguments ffplay is started with to play `url`.
pub open spec fn ffplay_arg_list(url: Seq<char>) -> Seq<Seq<char>> {
    seq!["-nodisp"@, "-autoexit"@, "-loglevel"@, "quiet"@, url]
}

/// The elapsed time after `delta` more nanoseconds, `delta` being the time
/// from `last` to `now`, or nothing where `now` comes before `last`.
pub open spec fn advanced(elapsed: int, last: int, now: int) -> int {
    if now >= last {
        elapsed + (now - last)
    } else {
        elapsed
    }
}

/// Nothing plays, at volume 85.
pub open spec fn initial_player() -> Player {
    Player { state: PlayerState::Stopped, current: None, volume: 85, elapsed: 0, last_tick: None }
}

/// `p` after playback stopped: stopped, the elapsed time back at zero and
/// the clock standing still; the track stays current.
pub open spec fn stopped(p: Player) -> Player {
    Player { state: PlayerState::Stopped, elapsed: 0, last_tick: None, ..p }
}

/// `p` after a pause or a resume at time `now`.
pub open spec fn toggled(p: Player, now: u128) -> Player {
    match p.state {
        PlayerState::Playing => Player { state: PlayerState::Paused, last_tick: None, ..p },
        PlayerState::Paused => Player { state: PlayerState::Playing, last_tick: Some(now), ..p },
        PlayerState::Stopped => p,
    }
}

/// The command that goes with a pause or a resume of `p`.
pub open spec fn toggle_command(p: Player) -> Option<Seq<char>> {
    match p.state {
        PlayerState::Playing => Some(pause_command(true)),
        PlayerState::Paused => Some(pause_command(false)),
        PlayerState::Stopped => None,
    }
}

/// `v`, or 100 where `v` is louder.
pub open spec fn clamp_volume(v: int) -> u8 {
    if v <= MAX_VOLUME {
        v as u8
    } else {
        MAX_VOLUME
    }
}

/// `p` with the volume set to `v`, clamped.
pub open spec fn volume_set(p: Player, v: u8) -> Player {
    Player { volume: clamp_volume(v as int), ..p }
}

/// `p` with the volume five louder, clamped.
pub open spec fn volume_raised(p: Player) -> Player {
    Player { volume: clamp_volume(p.volume + 5), ..p }
}

/// `p` with the volume five softer, to at least zero.
pub open spec fn volume_lowered(p: Player) -> Player {
    Player {
        volume: if p.volume >= 5 {
            (p.volume - 5) as u8
        } else {
            0u8
        },
        ..p
    }
}

/// `p` ten seconds further, to at most the length of the current track.
pub open spec fn seeked_forward(p: Player) -> Player {
    match p.current {
        Some(info) => Player {
            elapsed: if p.elapsed + SEEK_STEP <= info.duration * NANOS_PER_SEC {
                (p.elapsed + SEEK_STEP) as u128
            } else {
                (info.duration * NANOS_PER_SEC) as u128
            },
            ..p
        },
        None => p,
    }
}

/// `p` ten seconds back, to at least zero.
pub open spec fn seeked_backward(p: Player) -> Player {
    Player {
        elapsed: if p.elapsed >= SEEK_STEP {
            (p.elapsed - SEEK_STEP) as u128
        } else {
            0u128
        },
        ..p
    }
}

/// `p` at second `secs` of the track.
pub open spec fn seeked_to(p: Player, secs: u64) -> Player {
    Player { elapsed: (secs * NANOS_PER_SEC) as u128, ..p }
}

/// Whether seeking forward from `p` keeps the elapsed time within a
/// `Duration` (the step is added before the result is clamped).
pub open spec fn can_seek_forward(p: Player) -> bool {
    p.current.is_some() ==> p.elapsed + SEEK_STEP <= MAX_ELAPSED
}

/// `p` after its clock was brought up to time `now`, `exited` saying
/// whether the process has ended: while something plays, the elapsed time
/// grows by the time since the clock last moved and an ended process stops
/// playback; otherwise nothing changes.
pub open spec fn ticked(p: Player, now: u128, exited: bool) -> Player {
    if p.state == PlayerState::Playing {
        let moved = match p.last_tick {
            Some(last) => Player {
                elapsed: advanced(p.elapsed as int, last as int, now as int) as u128,
                last_tick: Some(now),
                ..p
            },
            None => p,
        };
        if exited {
            Player { state: PlayerState::Stopped, last_tick: None, ..moved }
        } else {
            moved
        }
    } else {
        p
    }
}

/// Whether the clock of `p` can be brought up to time `now` within a
/// `Duration`.
pub open spec fn can_tick(p: Player, now: u128) -> bool {
    p.state == PlayerState::Playing ==> match p.last_tick {
        Some(last) => advanced(p.elapsed as int, last as int, now as int) <= MAX_ELAPSED,
        None => true,
    }
}

/// The playback state.
pub struct Player {
    pub state: PlayerState,
    pub current: Option<TrackInfo>,
    /// From 0 to 100.
    pub volume: u8,
    /// The time played of the current track, in nanoseconds.
    pub elapsed: u128,
    /// When the elapsed time was last brought up to date, in nanoseconds of a
    /// monotonic clock; nothing while the clock stands still.
    pub last_tick: Option<u128>,
}

impl Player {
    /// The state's invariant: the volume is at most 100 and the elapsed
    /// time fits a `Duration`.
    pub open spec fn wf(&self) -> bool {
        &&& self.volume <= MAX_VOLUME
        &&& self.elapsed <= MAX_ELAPSED
    }

    /// Nothing plays, at volume 85.
    pub fn new() -> (r: Self)
        ensures
            r == initial_player(),
            r.wf(),
    {
        Player { state: PlayerState::Stopped, current: None, volume: 85, elapsed: 0, last_tick: None }
    }

    /// The command that asks mpv to quit, sent before the process is ended.
    pub fn quit_command() -> (r: String)
        ensures
            r@ == quit_command(),
    {
        String::from_str("{\"command\":[\"quit\"]}")
    }

    /// Playback stops: the elapsed time goes back to zero and the clock
    /// stands still; the track stays current.
    pub fn stop(&mut self)
        ensures
            *final(self) == stopped(*old(self)),
    {
        self.state = PlayerState::Stopped;
        self.elapsed = 0;
        self.last_tick = None;
    }

    /// Playback of `info` is about to start at time `now`: it stops what
    /// played, makes `info` current, and starts the clock from zero. The
    /// state becomes `Playing` once the process is launched.
    pub fn begin_play(&mut self, info: TrackInfo, now: u128)
        ensures
            *final(self) == (Player {
                current: Some(info),
                last_tick: Some(now),
                ..stopped(*old(self))
            }),
    {
        self.stop();
        self.current = Some(info);
        self.last_tick = Some(now);
    }

    /// Plays `info` from `url` at time `now`: the process that played is
    /// ended, `info` becomes current with the clock started from zero, and
    /// the process is launched on `url`. The state becomes `Playing` once
    /// `launched` reports a launch.
    pub fn play(&mut self, url: String, info: TrackInfo, now: u128) -> (effects: Vec<Effect>)
        ensures
            *final(self) == (Player {
                current: Some(info),
                last_tick: Some(now),
                ..stopped(*old(self))
            }),
            effects@ == seq![Effect::StopPlayer, Effect::LaunchPlayer { url }],
    {
        let mut effects = Vec::new();
        effects.push(Effect::StopPlayer);
        self.begin_play(info, now);
        effects.push(Effect::LaunchPlayer { url });
        assert(effects@ =~= seq![Effect::StopPlayer, Effect::LaunchPlayer { url }]);
        effects
    }

    /// The process was launched (`ok`) or could not be: only a launch
    /// makes the state `Playing`.
    pub fn launched(&mut self, ok: bool)
        ensures
            *final(self) == if ok {
                Player { state: PlayerState::Playing, ..*old(self) }
            } else {
                *old(self)
            },
    {
        if ok {
            self.state = PlayerState::Playing;
        }
    }

    /// The arguments mpv is started with to play `url`.
    pub fn mpv_args(&self, url: &str, linux: bool) -> (r: Vec<String>)
        ensures
            texts(r@) == mpv_arg_list(self.volume as nat, url@, linux),
    {
        let mut r: Vec<String> = Vec::new();
        r.push(String::from_str("--no-video"));
        r.push(String::from_str("--really-quiet"));
        r.push(String::from_str("--input-media-keys=no"));
        let mut ipc = String::from_str("--input-ipc-server=");
        ipc.append("/tmp/tuidal-mpv.sock");
        r.push(ipc);
        let mut vol = String::from_str("--volume=");
        let digits = decimal_string(self.volume as u64);
        vol.append(digits.as_str());
        r.push(vol);
        if linux {
            r.push(String::from_str("--audio-device=alsa/default"));
        }
        r.push(String::from_str(url));
        assert(texts(r@) =~= mpv_arg_list(self.volume as nat, url@, linux));
        r
    }

    /// The arguments ffplay is started with to play `url`, where mpv
    /// cannot start.
    pub fn ffplay_args(url: &str) -> (r: Vec<String>)
        ensures
            texts(r@) == ffplay_arg_list(url@),
    {
        let mut r: Vec<String> = Vec::new();
        r.push(String::from_str("-nodisp"));
        r.push(String::from_str("-autoexit"));
        r.push(String::from_str("-loglevel"));
        r.push(String::from_str("quiet"));
        r.push(String::from_str(url));
        assert(texts(r@) =~= ffplay_arg_list(url@));
        r
    }

    /// Pauses what plays, or resumes what is paused at time `now`, and gives
    /// the command for mpv; where nothing plays it changes nothing.
    pub fn toggle_pause(&mut self, now: u128) -> (r: Option<String>)
        ensures
            *final(self) == toggled(*old(self), now),
            match toggle_command(*old(self)) {
                Some(c) => r matches Some(s) && s@ == c,
                None => r.is_none(),
            },
    {
        match self.state {
            PlayerState::Playing => {
                self.state = PlayerState::Paused;
                self.last_tick = None;
                Some(String::from_str("{\"command\":[\"set_property\",\"pause\",true]}"))
            },
            PlayerState::Paused => {
                self.state = PlayerState::Playing;
                self.last_tick = Some(now);
                Some(String::from_str("{\"command\":[\"set_property\",\"pause\",false]}"))
            },
            PlayerState::Stopped => None,
        }
    }

    fn volume_command(&self) -> (r: String)
        ensures
            r@ == volume_command(self.volume as nat),
    {
        let digits = decimal_string(self.volume as u64);
        cat3("{\"command\":[\"set_property\",\"volume\",", digits.as_str(), "]}")
    }

    /// Sets the volume to `v`, or to 100 where `v` is louder, and gives the
    /// command for mpv.
    pub fn set_volume(&mut self, v: u8) -> (r: String)
        ensures
            *final(self) == volume_set(*old(self), v),
            r@ == volume_command(final(self).volume as nat),
    {
        self.volume = if v <= MAX_VOLUME {
            v
        } else {
            MAX_VOLUME
        };
        self.volume_command()
    }

    /// Raises the volume by five, to at most 100, and gives the command for
    /// mpv.
    pub fn volume_up(&mut self) -> (r: String)
        requires
            old(self).volume + 5 <= u8::MAX,
        ensures
            *final(self) == volume_raised(*old(self)),
            r@ == volume_command(final(self).volume as nat),
    {
        let up = self.volume + 5;
        self.volume = if up <= MAX_VOLUME {
            up
        } else {
            MAX_VOLUME
        };
        self.volume_command()
    }

    /// Lowers the volume by five, to at least zero, and gives the command
    /// for mpv.
    pub fn volume_down(&mut self) -> (r: String)
        ensures
            *final(self) == volume_lowered(*old(self)),
            r@ == volume_command(final(self).volume as nat),
    {
        self.volume = if self.volume >= 5 {
            self.volume - 5
        } else {
            0
        };
        self.volume_command()
    }

    /// Seeks ten seconds forward: the elapsed time grows by ten seconds, to
    /// at most the track's length, where a track is current.
    pub fn seek_forward(&mut self) -> (r: String)
        requires
            can_seek_forward(*old(self)),
        ensures
            *final(self) == seeked_forward(*old(self)),
            r@ == seek_forward_command(),
    {
        match &self.current {
            Some(info) => {
                let max: u128 = info.duration as u128 * NANOS_PER_SEC;
                let ahead = self.elapsed + SEEK_STEP;
                self.elapsed = if ahead <= max {
                    ahead
                } else {
                    max
                };
            },
            None => {},
        }
        String::from_str("{\"command\":[\"seek\",10,\"relative\"]}")
    }

    /// Seeks ten seconds back: the elapsed time shrinks by ten seconds, to
    /// at least zero.
    pub fn seek_backward(&mut self) -> (r: String)
        ensures
            *final(self) == seeked_backward(*old(self)),
            r@ == seek_backward_command(),
    {
        self.elapsed = if self.elapsed >= SEEK_STEP {
            self.elapsed - SEEK_STEP
        } else {
            0
        };
        String::from_str("{\"command\":[\"seek\",-10,\"relative\"]}")
    }

    /// Seeks to second `secs` of the track.
    pub fn seek_to(&mut self, secs: u64) -> (r: String)
        ensures
            *final(self) == seeked_to(*old(self), secs),
            r@ == seek_to_command(secs as nat),
    {
        let digits = decimal_string(secs);
        self.elapsed = secs as u128 * NANOS_PER_SEC;
        cat3("{\"command\":[\"seek\",", digits.as_str(), ",\"absolute\"]}")
    }

    /// Brings the clock up to time `now`, where `exited` says whether the
    /// process has ended.
    pub fn tick(&mut self, now: u128, exited: bool)
        requires
            can_tick(*old(self), now),
        ensures
            *final(self) == ticked(*old(self), now, exited),
    {
        if self.state == PlayerState::Playing {
            match self.last_tick {
                Some(last) => {
                    let delta = if now >= last {
                        now - last
                    } else {
                        0
                    };
                    self.elapsed = self.elapsed + delta;
                    self.last_tick = Some(now);
                },
                None => {},
            }
            if exited {
                self.state = PlayerState::Stopped;
                self.last_tick = None;
            }
        }
    }

    /// The whole seconds elapsed.
    pub fn elapsed_secs(&self) -> (r: u64)
        requires
            self.elapsed <= MAX_ELAPSED,
        ensures
            r == self.elapsed / NANOS_PER_SEC,
    {
        (self.elapsed / NANOS_PER_SEC) as u64
    }

    /// The time elapsed as `m:ss`.
    pub fn elapsed_str(&self) -> (r: String)
        requires
            self.elapsed <= MAX_ELAPSED,
        ensures
            r@ == minutes_seconds((self.elapsed / NANOS_PER_SEC) as nat),
    {
        minutes_seconds_string(self.elapsed_secs())
    }
}

} // verus!
