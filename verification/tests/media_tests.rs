use tuidal::app::ApiCommand;
use tuidal::media::{media_command, MediaEvent, MetadataMemo, TickCounter};

#[test]
fn media_events_become_commands() {
    for e in [MediaEvent::Play, MediaEvent::Pause, MediaEvent::Toggle, MediaEvent::Stop] {
        assert!(matches!(media_command(e), Some(ApiCommand::PlayPause)));
    }
    assert!(matches!(media_command(MediaEvent::Next), Some(ApiCommand::Next)));
    assert!(matches!(media_command(MediaEvent::Previous), Some(ApiCommand::Prev)));
    assert!(matches!(media_command(MediaEvent::SetPosition(42)), Some(ApiCommand::SeekTo(42))));
    assert!(media_command(MediaEvent::Other).is_none());
}

#[test]
fn metadata_is_sent_only_when_it_changes() {
    let mut m = MetadataMemo::new();
    assert!(m.remember("T", "A", None));
    assert!(!m.remember("T", "A", None));
    assert!(m.remember("T", "A", Some("u")));
    assert!(!m.remember("T", "A", Some("u")));
    assert!(m.remember("T", "B", Some("u")));
    assert!(m.remember("U", "B", Some("u")));
    assert!(m.remember("U", "B", None));
    assert_eq!(m.last_title, "U");
    assert_eq!(m.last_artist, "B");
    assert!(m.last_cover_url.is_none());
}

#[test]
fn every_fifth_tick() {
    let mut c = TickCounter::new();
    let fired: Vec<bool> = (0..10).map(|_| c.tick()).collect();
    assert_eq!(fired, vec![false, false, false, false, true, false, false, false, false, true]);
}
