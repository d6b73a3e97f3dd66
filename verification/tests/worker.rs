use std::cell::Cell;
use std::rc::Rc;
use swoncord::playback::{ArtworkResult, Presence};
use swoncord::track::{State, TrackInfo, TrackUpdate};
use swoncord::transport::{Clock, Connection, Transport};
use swoncord::worker::Worker;

/// One millisecond on the clocks, which count nanoseconds.
const MS: u64 = 1_000_000;

#[derive(Clone)]
struct StepClock(Rc<Cell<u64>>);
impl Clock for StepClock {
    fn now(&self) -> u64 {
        self.0.get()
    }
}

#[derive(Default)]
struct Recorder {
    writes: Vec<Option<(String, Option<String>)>>,
}
impl Transport for Recorder {
    type Error = ();
    fn connect(&mut self) -> Result<(), ()> {
        Ok(())
    }
    fn update(&mut self, presence: &Presence<'_>) -> Result<(), ()> {
        self.writes.push(Some((
            presence.track.title.clone(),
            presence.cover.map(str::to_owned),
        )));
        Ok(())
    }
    fn clear(&mut self) -> Result<(), ()> {
        self.writes.push(None);
        Ok(())
    }
    fn disconnect(&mut self) {}
}

fn playing(title: &str, album: &str, at: i64) -> TrackUpdate {
    TrackUpdate {
        state: State::Playing,
        track: TrackInfo {
            artist: "Artist".into(),
            album: album.into(),
            title: title.into(),
            ..Default::default()
        },
        observed_at: at,
    }
}

#[test]
fn first_round_shows_the_track_and_asks_for_artwork() {
    let clock = StepClock(Rc::new(Cell::new(50_000 * MS)));
    let mut worker = Worker::new(Connection::new(Recorder::default(), clock.clone()), true);
    let request = worker
        .round(Some(playing("Song", "Album", 1000)), None, true, 0)
        .unwrap();
    assert_eq!(request.track.title, "Song");
    assert_eq!(request.generation, 1);
    // Disabling forces the clear through the throttle window.
    assert!(worker.round(None, None, false, 100 * MS).is_none());
    clock.0.set(60_000 * MS);
    let request = worker
        .round(None, Some(ArtworkResult { generation: 1, cover: None }), true, 200 * MS)
        .map(|r| r.generation);
    assert_eq!(request, None);
    // The retry fires once, thirty seconds after the miss.
    assert!(worker.round(None, None, true, 30_199 * MS).is_none());
    let retry = worker.round(None, None, true, 30_200 * MS).unwrap();
    assert_eq!(retry.generation, 1);
    assert!(worker.round(None, None, true, 30_300 * MS).is_none());
    assert_eq!(
        worker.connection().transport_ref().writes,
        vec![
            Some(("Song".to_string(), None)),
            None,
            Some(("Song".to_string(), None)),
        ]
    );
}

#[test]
fn artwork_result_reaches_the_next_write() {
    let clock = StepClock(Rc::new(Cell::new(0)));
    let mut worker = Worker::new(Connection::new(Recorder::default(), clock.clone()), true);
    worker.round(Some(playing("A", "Album", 1000)), None, true, 0);
    clock.0.set(5_000 * MS);
    worker.round(
        None,
        Some(ArtworkResult { generation: 1, cover: Some("art".into()) }),
        true,
        10 * MS,
    );
    assert_eq!(worker.playback().cover(), Some("art"));
    assert!(worker.wait_timeout() <= 5_000 * MS);
}

#[test]
fn overflowing_update_is_refused_before_a_round() {
    let clock = StepClock(Rc::new(Cell::new(0)));
    let worker = Worker::new(Connection::new(Recorder::default(), clock), true);
    let mut update = playing("A", "Album", i64::MIN);
    update.track.position = Some(1);
    assert!(!worker.can_apply(&update));
}
