use swoncord::artwork::{
    helper_exit, helper_invocation, helper_reply, poll_step, read_helper_output, reply_fits,
    HelperExit, HelperInvocation, HelperReply, LookupOutcome, PollStep, MAX_REPLY,
};

fn args(list: &[&str]) -> Vec<String> {
    list.iter().map(|s| s.to_string()).collect()
}

#[test]
fn helper_arguments_are_flag_artist_album() {
    assert!(matches!(helper_invocation(&args(&[])), HelperInvocation::NotHelper));
    assert!(matches!(
        helper_invocation(&args(&["--other"])),
        HelperInvocation::NotHelper
    ));
    assert!(matches!(
        helper_invocation(&args(&["--artwork-helper"])),
        HelperInvocation::MissingArtist
    ));
    assert!(matches!(
        helper_invocation(&args(&["--artwork-helper", "A"])),
        HelperInvocation::MissingAlbum
    ));
    match helper_invocation(&args(&["--artwork-helper", "A", "B"])) {
        HelperInvocation::Lookup { artist, album } => {
            assert_eq!(artist, "A");
            assert_eq!(album, "B");
        }
        other => panic!("unexpected {other:?}"),
    }
}

#[test]
fn helper_exit_codes_distinguish_deadline_and_failure() {
    assert_eq!(helper_exit(Some(124), false), HelperExit::DeadlineExceeded);
    assert_eq!(helper_exit(Some(1), false), HelperExit::Failed);
    assert_eq!(helper_exit(None, false), HelperExit::Failed);
    assert_eq!(helper_exit(Some(0), true), HelperExit::Succeeded);
}

#[test]
fn cancellation_wins_over_exit_and_deadline() {
    assert_eq!(
        poll_step(true, Some((Some(0), true)), 100, 10),
        PollStep::Cancelled
    );
    assert_eq!(
        poll_step(false, Some((Some(0), true)), 100, 10),
        PollStep::Exited(HelperExit::Succeeded)
    );
    assert_eq!(poll_step(false, None, 100, 10), PollStep::TimedOut);
    assert_eq!(poll_step(false, None, 5, 10), PollStep::Sleep);
}

#[test]
fn replies_are_bounded() {
    assert!(reply_fits(MAX_REPLY));
    assert!(!reply_fits(MAX_REPLY + 1));
    match helper_reply(LookupOutcome::Failed("e".repeat(800))) {
        HelperReply::Error(message) => assert_eq!(message.chars().count(), 500),
        other => panic!("unexpected {other:?}"),
    }
    assert!(matches!(
        helper_reply(LookupOutcome::NoData),
        HelperReply::Cover(None)
    ));
    match helper_reply(LookupOutcome::Found("url".into())) {
        HelperReply::Cover(Some(cover)) => assert_eq!(cover, "url"),
        other => panic!("unexpected {other:?}"),
    }
}

#[test]
fn helper_output_gives_cover_and_error() {
    let found = read_helper_output(br#"{"cover":"https://example.org/front-250"}"#).unwrap();
    assert_eq!(found.cover.as_deref(), Some("https://example.org/front-250"));
    assert_eq!(found.error, None);
    let none = read_helper_output(br#"{"cover":null}"#).unwrap();
    assert_eq!(none.cover, None);
    let failed = read_helper_output(br#"{"error":"timeout"}"#).unwrap();
    assert_eq!(failed.cover, None);
    assert_eq!(failed.error.as_deref(), Some("timeout"));
    let odd = read_helper_output(br#"{"cover":7}"#).unwrap();
    assert_eq!(odd.cover, None);
}

#[test]
fn helper_output_that_is_not_json_is_refused() {
    assert!(read_helper_output(b"").is_none());
    assert!(read_helper_output(b"cover").is_none());
}
