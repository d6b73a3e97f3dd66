use std::cell::Cell;
use std::collections::VecDeque;
use std::rc::Rc;
use swoncord::playback::{Anchor, Presence};
use swoncord::track::TrackInfo;
use swoncord::transport::{
    activity_fields, presence_field, Clock, Connection, Transport, FIELD_MAX, RECV_TIMEOUT_NS,
    RETRY_INITIAL_NS,
};

/// One second on the clock, which counts nanoseconds.
const SEC: u64 = 1_000_000_000;
const START: u64 = 1_000 * SEC;

#[derive(Clone)]
struct FakeClock(Rc<Cell<u64>>);
impl Clock for FakeClock {
    fn now(&self) -> u64 {
        self.0.get()
    }
}
impl FakeClock {
    fn start() -> Self {
        FakeClock(Rc::new(Cell::new(START)))
    }
    fn advance(&self, seconds: u64) {
        self.0.set(self.0.get() + seconds * SEC);
    }
}

#[derive(Default)]
struct FakeTransport {
    connects: usize,
    connect_results: VecDeque<Result<(), &'static str>>,
    writes: Vec<Option<String>>,
    fail_write: bool,
}
impl Transport for FakeTransport {
    type Error = &'static str;
    fn connect(&mut self) -> Result<(), Self::Error> {
        self.connects += 1;
        self.connect_results.pop_front().unwrap_or(Ok(()))
    }
    fn update(&mut self, presence: &Presence<'_>) -> Result<(), Self::Error> {
        self.writes.push(Some(presence.track.title.clone()));
        if std::mem::take(&mut self.fail_write) {
            Err("disconnected")
        } else {
            Ok(())
        }
    }
    fn clear(&mut self) -> Result<(), Self::Error> {
        self.writes.push(None);
        if std::mem::take(&mut self.fail_write) {
            Err("disconnected")
        } else {
            Ok(())
        }
    }
    fn disconnect(&mut self) {}
}

fn presence(track: &TrackInfo) -> Option<Presence<'_>> {
    Some(Presence {
        track,
        cover: None,
        anchor: None,
    })
}

#[test]
fn discord_can_start_later_and_receives_the_latest_track() {
    let clock = FakeClock::start();
    let transport = FakeTransport {
        connect_results: [Err("absent"), Err("absent"), Ok(())].into(),
        ..Default::default()
    };
    let mut connection = Connection::new(transport, clock.clone());
    let old = TrackInfo {
        title: "Old".into(),
        ..Default::default()
    };
    let current = TrackInfo {
        title: "Current".into(),
        ..Default::default()
    };
    connection.publish(presence(&old), false);
    assert_eq!(connection.wait_timeout(), SEC);
    connection.publish(presence(&current), true);
    assert_eq!(connection.transport_ref().connects, 1); // toggles don't bypass backoff
    clock.advance(1);
    connection.publish(presence(&current), false);
    assert_eq!(connection.wait_timeout(), 2 * SEC);
    clock.advance(2);
    connection.publish(presence(&current), false);
    assert_eq!(
        connection.transport_ref().writes,
        vec![Some("Current".to_string())]
    );
}

#[test]
fn reconnect_republishes_after_a_write_failure() {
    let clock = FakeClock::start();
    let mut connection = Connection::new(FakeTransport::default(), clock.clone());
    let track = TrackInfo::default();
    connection.publish(presence(&track), false);
    clock.advance(4);
    connection.transport_mut().fail_write = true;
    connection.publish(presence(&track), false);
    assert!(!connection.is_connected());
    clock.advance(1);
    connection.publish(presence(&track), false);
    assert_eq!(connection.transport_ref().connects, 2);
    assert!(connection.is_connected());
    assert_eq!(connection.transport_ref().writes.len(), 3);
}

#[test]
fn failed_clear_is_retried_and_does_not_restore_disabled_presence() {
    let clock = FakeClock::start();
    let mut connection = Connection::new(FakeTransport::default(), clock.clone());
    let track = TrackInfo::default();
    connection.publish(presence(&track), false);
    connection.transport_mut().fail_write = true;
    connection.publish(None, true);
    clock.advance(1);
    connection.publish(None, false);
    assert_eq!(
        connection.transport_ref().writes,
        vec![Some("".to_string()), None, None]
    );
    assert!(!connection.is_active());
}

#[test]
fn backoff_is_capped_and_resets_after_recovery() {
    let clock = FakeClock::start();
    let transport = FakeTransport {
        connect_results: vec![Err("absent"); 10].into(),
        ..Default::default()
    };
    let mut connection = Connection::new(transport, clock.clone());
    for delay in [1, 2, 4, 8, 16, 30, 30, 30, 30, 30] {
        connection.publish(None, false);
        assert_eq!(connection.retry_at().unwrap() - clock.now(), delay * SEC);
        clock.advance(delay);
    }
    connection.publish(None, false);
    assert!(connection.is_connected());
    assert_eq!(connection.retry_delay(), RETRY_INITIAL_NS);
}

#[test]
fn forced_disable_bypasses_write_throttle() {
    let clock = FakeClock::start();
    let mut connection = Connection::new(FakeTransport::default(), clock);
    let track = TrackInfo::default();
    connection.publish(presence(&track), false);
    connection.publish(None, false);
    assert_eq!(connection.transport_ref().writes.len(), 1);
    connection.publish(None, true);
    assert_eq!(
        connection.transport_ref().writes,
        vec![Some("".to_string()), None]
    );
}

#[test]
fn presence_fields_pad_omit_and_truncate_unicode_safely() {
    assert_eq!(presence_field("J").as_deref(), Some("J "));
    assert_eq!(presence_field("   "), None);
    assert_eq!(
        presence_field(" Normal Title ").as_deref(),
        Some("Normal Title")
    );
    assert_eq!(
        presence_field(&"🎵".repeat(150)).unwrap().chars().count(),
        FIELD_MAX
    );
}

#[test]
fn presence_field_trims_unicode_whitespace_and_keeps_inner_spaces() {
    assert_eq!(
        presence_field("\u{3000}\tA  B\u{a0}\n").as_deref(),
        Some("A  B")
    );
    assert_eq!(presence_field(""), None);
    let long: String = "x".repeat(200);
    assert_eq!(presence_field(&long).unwrap(), "x".repeat(128));
}

#[test]
fn wait_timeout_tracks_the_throttle_window() {
    let clock = FakeClock::start();
    let mut connection = Connection::new(FakeTransport::default(), clock.clone());
    assert_eq!(connection.wait_timeout(), RECV_TIMEOUT_NS);
    let track = TrackInfo::default();
    connection.publish(presence(&track), false);
    assert_eq!(connection.wait_timeout(), 4 * SEC);
    clock.advance(3);
    assert_eq!(connection.wait_timeout(), SEC);
    clock.advance(1);
    assert_eq!(connection.wait_timeout(), RECV_TIMEOUT_NS);
    assert_eq!(connection.wait_timeout_at(START + SEC / 2), 3 * SEC + SEC / 2);
}

#[test]
fn activity_shows_artist_title_album_cover_and_progress() {
    let track = TrackInfo {
        artist: " Artist ".into(),
        album: "A".into(),
        title: "".into(),
        ..Default::default()
    };
    let shown = Presence {
        track: &track,
        cover: Some("https://example.org/cover"),
        anchor: Some(Anchor {
            start: 970,
            end: Some(1170),
        }),
    };
    let fields = activity_fields(&shown);
    assert_eq!(fields.state.as_deref(), Some("Artist"));
    assert_eq!(fields.details, None);
    assert_eq!(fields.large_text.as_deref(), Some("A "));
    assert_eq!(fields.large_image, "https://example.org/cover");
    assert_eq!(fields.small_text, "Listening");
    assert_eq!((fields.start, fields.end), (Some(970), Some(1170)));
    let plain = Presence {
        track: &track,
        cover: None,
        anchor: None,
    };
    let fields = activity_fields(&plain);
    assert_eq!(fields.large_image, "sw2");
    assert_eq!((fields.start, fields.end), (None, None));
}
