use swoncord::swinsian;
use swoncord::track::{
    unix_now, unix_seconds, State, TrackInfo, SWINSIAN_TRACK_PAUSED, SWINSIAN_TRACK_PLAYING,
    SWINSIAN_TRACK_STOPPED,
};

#[test]
fn state_from_known_notification_names() {
    assert_eq!(State::from(SWINSIAN_TRACK_PLAYING), State::Playing);
    assert_eq!(State::from(SWINSIAN_TRACK_STOPPED), State::Stopped);
    assert_eq!(State::from(SWINSIAN_TRACK_PAUSED), State::Paused);
}

#[test]
fn state_from_unknown_name_is_unknown() {
    assert_eq!(State::from("com.example.Something-Else"), State::Unknown);
    assert_eq!(State::from(""), State::Unknown);
}

#[test]
fn state_names_must_match_exactly() {
    assert_eq!(State::from("com.swinsian.Swinsian-Track-Playing "), State::Unknown);
    assert_eq!(State::from("com.swinsian.Swinsian-Track-playing"), State::Unknown);
    assert_eq!(State::default(), State::Unknown);
}

#[test]
fn player_notification_names_map_to_player_states() {
    assert_eq!(swinsian::State::from(SWINSIAN_TRACK_PLAYING), swinsian::State::Playing);
    assert_eq!(swinsian::State::from(SWINSIAN_TRACK_STOPPED), swinsian::State::Stopped);
    assert_eq!(swinsian::State::from(SWINSIAN_TRACK_PAUSED), swinsian::State::Paused);
    assert_eq!(swinsian::State::from("Swinsian"), swinsian::State::Unknown);
}

#[test]
fn unix_time_reading_is_converted_or_defaults_to_zero() {
    assert_eq!(unix_seconds(Some(1_700_000_000)), 1_700_000_000);
    assert_eq!(unix_seconds(None), 0);
    assert!(unix_now() > 1_600_000_000);
}

#[test]
fn track_clone_keeps_every_field() {
    let track = TrackInfo {
        artist: "A".into(),
        album: "B".into(),
        title: "C".into(),
        file_type: Some("flac".into()),
        position: Some(3),
        duration: Some(9),
    };
    assert_eq!(track.clone(), track);
}
