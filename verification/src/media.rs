//! The link with the system's media controls: which of their events become
//! commands, when the track's details are sent again, and how often the
//! controls are brought up to date.
use crate::app::ApiCommand;
use vstd::prelude::*;

verus! {

/// An event of the system's media controls.
#[derive(Debug, Clone, Copy, PartialEq, Eq, Structural)]
pub enum MediaEvent {
    Play,
    Pause,
    Toggle,
    Next,
    Previous,
    Stop,
    /// A jump to this second of the track.
    SetPosition(u64),
    /// Any other event, which the program ignores.
    Other,
}

/// The command a media event stands for: play, pause, toggle and stop
/// all toggle the pause; next and previous move in the queue; a position
/// seeks to it.
pub open spec fn media_command_of(e: MediaEvent) -> Option<ApiCommand> {
    match e {
        MediaEvent::Play | MediaEvent::Pause | MediaEvent::Toggle | MediaEvent::Stop => Some(
            ApiCommand::PlayPause,
        ),
        MediaEvent::Next => Some(ApiCommand::Next),
        MediaEvent::Previous => Some(ApiCommand::Prev),
        MediaEvent::SetPosition(secs) => Some(ApiCommand::SeekTo(secs)),
        MediaEvent::Other => None,
    }
}

/// The command a media event stands for, or nothing.
pub fn media_command(e: MediaEvent) -> (r: Option<ApiCommand>)
    ensures
        r == media_command_of(e),
{
    match e {
        MediaEvent::Play | MediaEvent::Pause | MediaEvent::Toggle | MediaEvent::Stop => Some(
            ApiCommand::PlayPause,
        ),
        MediaEvent::Next => Some(ApiCommand::Next),
        MediaEvent::Previous => Some(ApiCommand::Prev),
        MediaEvent::SetPosition(secs) => Some(ApiCommand::SeekTo(secs)),
        MediaEvent::Other => None,
    }
}

/// The track details last sent to the media controls.
pub struct MetadataMemo {
    pub last_title: String,
    pub last_artist: String,
    pub last_cover_url: Option<String>,
}

impl MetadataMemo {
    /// Nothing sent yet: an empty title and artist, no cover.
    pub fn new() -> (r: Self)
        ensures
            r.last_title@ == Seq::<char>::empty(),
            r.last_artist@ == Seq::<char>::empty(),
            r.last_cover_url.is_none(),
    {
        MetadataMemo { last_title: String::new(), last_artist: String::new(), last_cover_url: None }
    }

    /// Whether details with this title, artist and cover must be sent:
    /// they must unless all three equal the ones last sent; when they must,
    /// they are remembered as the last sent.
    pub fn remember(&mut self, title: &str, artist: &str, cover_url: Option<&str>) -> (r: bool)
        ensures
            r == !(title@ == old(self).last_title@ && artist@ == old(self).last_artist@ && match (
                cover_url,
                old(self).last_cover_url,
            ) {
                (Some(u), Some(v)) => u@ == v@,
                (None, None) => true,
                _ => false,
            }),
            r ==> final(self).last_title@ == title@ && final(self).last_artist@ == artist@
                && match cover_url {
                Some(u) => final(self).last_cover_url matches Some(v) && v@ == u@,
                None => final(self).last_cover_url.is_none(),
            },
            !r ==> *final(self) == *old(self),
    {
        let url_str = match cover_url {
            Some(u) => Some(String::from_str(u)),
            None => None,
        };
        let same_url = match (&url_str, &self.last_cover_url) {
            (Some(u), Some(v)) => *u == *v,
            (None, None) => true,
            _ => false,
        };
        if String::from_str(title) == self.last_title && String::from_str(artist)
            == self.last_artist && same_url {
            return false;
        }
        self.last_title = String::from_str(title);
        self.last_artist = String::from_str(artist);
        self.last_cover_url = url_str;
        true
    }
}

/// Counts the clock's ticks so that the media controls are brought up to
/// date on every fifth.
pub struct TickCounter {
    pub count: u8,
}

impl TickCounter {
    /// No tick counted.
    pub fn new() -> (r: Self)
        ensures
            r.count == 0,
    {
        TickCounter { count: 0 }
    }

    /// Counts a tick; true on every fifth, when the count starts again.
    pub fn tick(&mut self) -> (r: bool)
        requires
            old(self).count < 5,
        ensures
            r == (old(self).count + 1 >= 5),
            final(self).count == if r {
                0
            } else {
                old(self).count + 1
            },
            final(self).count < 5,
    {
        self.count = self.count + 1;
        if self.count >= 5 {
            self.count = 0;
            true
        } else {
            false
        }
    }
}

} // verus!
