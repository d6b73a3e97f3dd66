use swoncord::direct::{
    album_changed, direct_action, direct_fields, DirectAction, DirectSchedule, PresenceState,
};
use swoncord::swinsian::State;

#[test]
fn album_change_is_judged_by_album_name() {
    assert!(album_changed(None, Some("A")));
    assert!(album_changed(Some("A"), Some("B")));
    assert!(!album_changed(Some("A"), Some("A")));
    assert!(!album_changed(Some("A"), None));
    assert!(!album_changed(None, None));
}

#[test]
fn direct_fields_cut_and_pad_the_artist() {
    let long = "t".repeat(130);
    let fields = direct_fields("X", &long, "Album", None);
    assert_eq!(fields.state, "X ");
    assert_eq!(fields.details.chars().count(), 128);
    assert_eq!(fields.large_text, "Album");
    assert_eq!(fields.large_image, "sw2");
    let fields = direct_fields(&"a".repeat(128), "", "", Some("cover"));
    assert_eq!(fields.state, "a".repeat(128));
    assert_eq!(fields.large_image, "cover");
}

#[test]
fn only_playing_is_shown() {
    assert_eq!(direct_action(State::Playing), DirectAction::Update);
    assert_eq!(direct_action(State::Paused), DirectAction::Clear);
    assert_eq!(direct_action(State::Stopped), DirectAction::Clear);
    assert_eq!(direct_action(State::Unknown), DirectAction::Clear);
}

#[test]
fn writes_wait_four_whole_seconds() {
    // Milliseconds on the clock, which counts nanoseconds.
    let ms = |n: u64| n * 1_000_000;
    let mut schedule = DirectSchedule::new(ms(10_000));
    assert!(!schedule.update_due(ms(13_999)));
    assert!(!schedule.update_due(ms(14_000) - 1));
    assert!(schedule.update_due(ms(14_000)));
    assert!(!schedule.clear_due(ms(20_000)));
    schedule.updated(ms(14_000), true);
    assert_eq!(schedule.state, PresenceState::Active);
    assert!(!schedule.clear_due(ms(17_999)));
    assert!(schedule.clear_due(ms(18_000)));
    schedule.cleared(ms(18_000), false);
    assert_eq!(schedule.state, PresenceState::Active);
    schedule.cleared(ms(18_000), true);
    assert_eq!(schedule.state, PresenceState::Cleared);
    assert!(!schedule.update_due(ms(5_000)));
}
