use swoncord::logging::LogBudget;
use swoncord::source::notification::swinsian_notifications;
use swoncord::source::workspace::terminated_app_is_swinsian;

#[test]
fn swinsian_is_recognized_by_bundle_or_name() {
    assert!(terminated_app_is_swinsian(Some("com.swinsian.Swinsian"), None));
    assert!(terminated_app_is_swinsian(None, Some("Swinsian")));
    assert!(!terminated_app_is_swinsian(Some("com.apple.Music"), Some("Music")));
    assert!(!terminated_app_is_swinsian(None, None));
}

#[test]
fn all_three_player_notifications_are_observed() {
    assert_eq!(
        swinsian_notifications(),
        vec![
            "com.swinsian.Swinsian-Track-Playing",
            "com.swinsian.Swinsian-Track-Stopped",
            "com.swinsian.Swinsian-Track-Paused",
        ]
    );
}

#[test]
fn log_rotates_only_a_nonempty_file_that_would_pass_the_limit() {
    let mut budget = LogBudget::new(0, 10);
    assert!(!budget.needs_rotation(20));
    budget.wrote(7);
    assert!(!budget.needs_rotation(3));
    assert!(budget.needs_rotation(6));
    budget.rotated();
    assert_eq!(budget.size, 0);
    assert!(!budget.needs_rotation(6));
}

#[test]
fn mailbox_slot_keeps_only_the_newest_value() {
    let mut slot = swoncord::latest::Slot::new();
    for n in 0..10_000 {
        slot.put(n);
    }
    assert_eq!(slot.take(), Some(9_999));
    assert!(slot.take().is_none());
    slot.put(10_000);
    assert_eq!(slot.take(), Some(10_000));
}
