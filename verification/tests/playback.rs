use swoncord::playback::{progress_anchor, Anchor, ArtworkResult, Playback};
use swoncord::track::{State, TrackInfo, TrackUpdate};

const NOW: u64 = 1_000 * 1_000_000_000;

/// `n` seconds on the playback clock, which counts nanoseconds.
fn secs(n: u64) -> u64 {
    n * 1_000_000_000
}

fn update(state: State, title: &str, pos: Option<i64>, observed_at: i64) -> TrackUpdate {
    TrackUpdate {
        state,
        track: TrackInfo {
            artist: "Artist".into(),
            album: "Album".into(),
            title: title.into(),
            position: pos,
            duration: Some(200),
            ..Default::default()
        },
        observed_at,
    }
}

#[test]
fn delayed_processing_and_artwork_do_not_move_observed_progress() {
    let mut playback = Playback::default();
    let request = playback
        .apply(update(State::Playing, "Song", Some(30), 1000))
        .unwrap();
    let before = playback.presence(true).unwrap();
    assert!(before.cover.is_none());
    assert_eq!(
        before.anchor,
        Some(Anchor {
            start: 970,
            end: Some(1170)
        })
    );
    playback.accept_artwork(
        ArtworkResult {
            generation: request.generation,
            cover: Some("art".into()),
        },
        NOW,
    );
    let after = playback.presence(true).unwrap();
    assert_eq!(after.cover, Some("art"));
    assert_eq!(
        after.anchor,
        Some(Anchor {
            start: 970,
            end: Some(1170)
        })
    );
}

#[test]
fn old_artwork_is_rejected_after_switching_away_and_back_to_an_album() {
    let mut playback = Playback::default();
    let first = playback
        .apply(update(State::Playing, "A", None, 1000))
        .unwrap();
    let mut other = update(State::Playing, "B", None, 1001);
    other.track.album = "Other album".into();
    playback.apply(other);
    let current = playback
        .apply(update(State::Playing, "A", None, 1002))
        .unwrap();
    playback.accept_artwork(
        ArtworkResult {
            generation: first.generation,
            cover: Some("stale".into()),
        },
        NOW,
    );
    assert!(playback.presence(true).unwrap().cover.is_none());
    playback.accept_artwork(
        ArtworkResult {
            generation: current.generation,
            cover: Some("current".into()),
        },
        NOW,
    );
    assert_eq!(playback.presence(true).unwrap().cover, Some("current"));
}

#[test]
fn stopped_playback_ignores_inflight_artwork() {
    let mut playback = Playback::default();
    let request = playback
        .apply(update(State::Playing, "Song", None, 1000))
        .unwrap();
    playback.apply(update(State::Stopped, "", None, 1001));
    playback.accept_artwork(
        ArtworkResult {
            generation: request.generation,
            cover: Some("old".into()),
        },
        NOW,
    );
    assert!(playback.presence(true).is_none());
    assert!(playback.cover().is_none());
}

#[test]
fn pause_resume_with_positions_reanchors_and_disable_retains_playback() {
    let mut playback = Playback::default();
    playback.apply(update(State::Playing, "Song", Some(30), 1000));
    playback.apply(update(State::Paused, "Song", Some(40), 1010));
    assert!(playback.presence(true).is_none());
    playback.apply(update(State::Playing, "Song", Some(40), 1060));
    assert!(playback.presence(false).is_none());
    assert_eq!(
        playback.presence(true).unwrap().anchor,
        Some(Anchor {
            start: 1020,
            end: Some(1220)
        })
    );
}

#[test]
fn positionless_pause_resume_excludes_paused_time() {
    let mut playback = Playback::default();
    playback.apply(update(State::Playing, "Song", Some(30), 1000));
    playback.apply(update(State::Paused, "Song", None, 1010));
    playback.apply(update(State::Paused, "Song", None, 1020));
    playback.apply(update(State::Playing, "Song", None, 1060));
    assert_eq!(
        playback.presence(true).unwrap().anchor,
        Some(Anchor {
            start: 1020,
            end: Some(1220)
        })
    );
}

#[test]
fn positionless_notification_keeps_anchor_and_does_not_restart_artwork() {
    let mut playback = Playback::default();
    playback.apply(update(State::Playing, "Song", Some(30), 1000));
    assert!(playback
        .apply(update(State::Playing, "Song", None, 1005))
        .is_none());
    assert_eq!(playback.presence(true).unwrap().anchor.unwrap().start, 970);
}

#[test]
fn same_album_reuses_existing_artwork() {
    let mut playback = Playback::default();
    let request = playback
        .apply(update(State::Playing, "A", None, 1000))
        .unwrap();
    playback.accept_artwork(
        ArtworkResult {
            generation: request.generation,
            cover: Some("art".into()),
        },
        NOW,
    );
    assert!(playback
        .apply(update(State::Playing, "B", None, 1001))
        .is_none());
    assert_eq!(playback.presence(true).unwrap().cover, Some("art"));
}

#[test]
fn missing_art_retries_without_track_change_and_recovers() {
    let mut playback = Playback::default();
    let now = NOW;
    let first = playback
        .apply(update(State::Playing, "Song", Some(30), 1000))
        .unwrap();
    playback.accept_artwork(
        ArtworkResult {
            generation: first.generation,
            cover: None,
        },
        now,
    );
    // Restarting the same track doesn't duplicate the pending retry.
    assert!(playback
        .apply(update(State::Playing, "Song", Some(0), 1001))
        .is_none());
    assert!(playback.retry_artwork(now + secs(29)).is_none());
    let retry = playback.retry_artwork(now + secs(30)).unwrap();
    assert_eq!(retry.generation, first.generation);
    assert!(playback.retry_artwork(now + secs(90)).is_none());
    playback.accept_artwork(
        ArtworkResult {
            generation: retry.generation,
            cover: Some("art".into()),
        },
        now,
    );
    assert_eq!(playback.presence(true).unwrap().cover, Some("art"));
    assert!(playback.retry_artwork(now + secs(3600)).is_none());
}

#[test]
fn failures_back_off_and_stale_results_cannot_schedule_retries() {
    let mut playback = Playback::default();
    let mut now = NOW;
    let first = playback
        .apply(update(State::Playing, "A", None, 1000))
        .unwrap();
    for seconds in [30, 60, 120, 240, 300, 300] {
        playback.accept_artwork(
            ArtworkResult {
                generation: first.generation,
                cover: None,
            },
            now,
        );
        assert!(playback.retry_artwork(now + secs(seconds - 1)).is_none());
        now += secs(seconds);
        assert!(playback.retry_artwork(now).is_some());
    }
    let mut other = update(State::Playing, "B", None, 1001);
    other.track.album = "Other album".into();
    let current = playback.apply(other).unwrap();
    playback.accept_artwork(
        ArtworkResult {
            generation: first.generation,
            cover: None,
        },
        now,
    );
    assert!(playback.retry_artwork(now + secs(3600)).is_none());
    playback.accept_artwork(
        ArtworkResult {
            generation: current.generation,
            cover: None,
        },
        now,
    );
    playback.apply(update(State::Stopped, "", None, 1002));
    assert!(playback.retry_artwork(now + secs(3600)).is_none());
}

#[test]
fn same_album_keeps_inflight_artwork_and_accepts_it_for_the_new_song() {
    let mut playback = Playback::default();
    let first = playback
        .apply(update(State::Playing, "A", Some(30), 1000))
        .unwrap();
    assert!(playback
        .apply(update(State::Playing, "B", Some(0), 1010))
        .is_none());
    assert!(playback
        .apply(update(State::Playing, "C", Some(0), 1020))
        .is_none());
    playback.accept_artwork(
        ArtworkResult {
            generation: first.generation,
            cover: Some("album art".into()),
        },
        NOW,
    );
    let presence = playback.presence(true).unwrap();
    assert_eq!(presence.track.title, "C");
    assert_eq!(presence.cover, Some("album art"));
    assert_eq!(presence.anchor.unwrap().start, 1020);
}

#[test]
fn same_album_keeps_retry_backoff_but_a_new_album_requests_immediately() {
    let mut playback = Playback::default();
    let now = NOW;
    let first = playback
        .apply(update(State::Playing, "A", None, 1000))
        .unwrap();
    playback.accept_artwork(
        ArtworkResult {
            generation: first.generation,
            cover: None,
        },
        now,
    );
    assert!(playback
        .apply(update(State::Playing, "B", None, 1001))
        .is_none());
    assert!(playback.retry_artwork(now + secs(29)).is_none());
    let retry = playback.retry_artwork(now + secs(30)).unwrap();
    assert_eq!(retry.track.title, "B");
    assert_eq!(retry.generation, first.generation);
    let mut other = update(State::Playing, "C", None, 1002);
    other.track.album = "Other album".into();
    assert!(playback.apply(other).is_some());
}

#[test]
fn artists_with_identically_named_albums_do_not_share_art() {
    let mut playback = Playback::default();
    let first = playback
        .apply(update(State::Playing, "A", None, 1000))
        .unwrap();
    playback.accept_artwork(
        ArtworkResult {
            generation: first.generation,
            cover: Some("old".into()),
        },
        NOW,
    );
    let mut next = update(State::Playing, "B", None, 1001);
    next.track.artist = "Different artist".into();
    assert!(playback.apply(next).is_some());
    assert!(playback.presence(true).unwrap().cover.is_none());
}

#[test]
fn progress_without_duration_is_open_ended() {
    assert_eq!(
        progress_anchor(30, None, 1000),
        Anchor {
            start: 970,
            end: None
        }
    );
}

#[test]
fn retry_is_not_due_while_paused() {
    let mut playback = Playback::new();
    let first = playback
        .apply(update(State::Playing, "A", None, 1000))
        .unwrap();
    assert_eq!(first.generation, 1);
    playback.accept_artwork(
        ArtworkResult {
            generation: first.generation,
            cover: None,
        },
        NOW,
    );
    playback.apply(update(State::Paused, "A", None, 1001));
    assert!(playback.retry_artwork(NOW + secs(60)).is_none());
    playback.apply(update(State::Playing, "A", None, 1002));
    assert!(playback.retry_artwork(NOW + secs(60)).is_some());
}

#[test]
fn overflowing_anchor_is_detected_before_applying() {
    let playback = Playback::new();
    assert!(!playback.can_apply(&update(State::Playing, "A", Some(i64::MIN), 1)));
    assert!(playback.can_apply(&update(State::Playing, "A", Some(30), 1000)));
    assert!(playback.can_apply(&update(State::Stopped, "A", Some(i64::MIN), 1)));
}

#[test]
fn stop_and_unknown_states_advance_the_generation() {
    let mut playback = Playback::new();
    assert!(playback.apply(update(State::Unknown, "A", None, 1)).is_none());
    let request = playback.apply(update(State::Paused, "A", None, 2)).unwrap();
    assert_eq!(request.generation, 2);
    assert_eq!(request.track.title, "A");
    assert!(playback.presence(true).is_none());
}
