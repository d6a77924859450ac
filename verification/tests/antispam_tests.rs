use safeguard::antispam::{
    AntiSpam, CheckResult, UserState, MIN_INTERVAL_NS, MUTE_DURATION_SECS, SPAM_BURST_COUNT,
    SPAM_WINDOW_NS,
};

const SEC: u64 = 1_000_000_000;

#[test]
fn constants_of_flood_control() {
    assert_eq!(MIN_INTERVAL_NS, 5 * SEC);
    assert_eq!(SPAM_WINDOW_NS, 2 * SEC);
    assert_eq!(SPAM_BURST_COUNT, 3);
    assert_eq!(MUTE_DURATION_SECS, 600);
}

#[test]
fn fresh_user_state_is_empty() {
    let s = UserState::new();
    assert!(!s.request_in_progress);
    assert!(s.last_completed_at.is_none());
    assert!(s.recent_messages.is_empty());
}

#[test]
fn first_message_is_allowed() {
    let mut a = AntiSpam::new();
    assert_eq!(a.check_and_register(1, 100 * SEC), CheckResult::Allowed);
}

#[test]
fn second_message_while_processing_is_refused() {
    let mut a = AntiSpam::new();
    assert_eq!(a.check_and_register(1, 100 * SEC), CheckResult::Allowed);
    assert_eq!(a.check_and_register(1, 103 * SEC), CheckResult::StillProcessing);
}

#[test]
fn pause_after_completion() {
    let mut a = AntiSpam::new();
    assert_eq!(a.check_and_register(1, 100 * SEC), CheckResult::Allowed);
    a.mark_completed(1, 101 * SEC);
    assert_eq!(a.check_and_register(1, 104 * SEC), CheckResult::TooSoon);
    assert_eq!(a.check_and_register(1, 106 * SEC + 1), CheckResult::Allowed);
}

#[test]
fn exactly_five_seconds_after_completion_is_allowed() {
    let mut a = AntiSpam::new();
    assert_eq!(a.check_and_register(7, 10 * SEC), CheckResult::Allowed);
    a.mark_completed(7, 20 * SEC);
    assert_eq!(a.check_and_register(7, 25 * SEC), CheckResult::Allowed);
}

#[test]
fn burst_of_three_is_spam() {
    let mut a = AntiSpam::new();
    assert_eq!(a.check_and_register(2, 50 * SEC), CheckResult::Allowed);
    assert_eq!(a.check_and_register(2, 50 * SEC + 500_000_000), CheckResult::StillProcessing);
    assert_eq!(a.check_and_register(2, 51 * SEC), CheckResult::SpamDetected);
}

#[test]
fn spread_messages_are_not_spam() {
    let mut a = AntiSpam::new();
    assert_eq!(a.check_and_register(3, 10 * SEC), CheckResult::Allowed);
    assert_eq!(a.check_and_register(3, 13 * SEC), CheckResult::StillProcessing);
    assert_eq!(a.check_and_register(3, 16 * SEC), CheckResult::StillProcessing);
}

#[test]
fn window_boundary_is_inclusive() {
    let mut a = AntiSpam::new();
    assert_eq!(a.check_and_register(4, 10 * SEC), CheckResult::Allowed);
    assert_eq!(a.check_and_register(4, 11 * SEC), CheckResult::StillProcessing);
    assert_eq!(a.check_and_register(4, 12 * SEC), CheckResult::SpamDetected);
}

#[test]
fn cleared_user_starts_over() {
    let mut a = AntiSpam::new();
    assert_eq!(a.check_and_register(5, 10 * SEC), CheckResult::Allowed);
    assert_eq!(a.check_and_register(5, 10 * SEC), CheckResult::StillProcessing);
    a.clear_user(5);
    assert_eq!(a.check_and_register(5, 10 * SEC), CheckResult::Allowed);
}

#[test]
fn users_are_independent() {
    let mut a = AntiSpam::new();
    assert_eq!(a.check_and_register(8, 10 * SEC), CheckResult::Allowed);
    assert_eq!(a.check_and_register(9, 10 * SEC), CheckResult::Allowed);
    a.mark_completed(8, 11 * SEC);
    assert_eq!(a.check_and_register(9, 12 * SEC), CheckResult::StillProcessing);
}

#[test]
fn completion_of_unknown_user_changes_nothing() {
    let mut a = AntiSpam::new();
    a.mark_completed(11, 10 * SEC);
    assert_eq!(a.check_and_register(11, 11 * SEC), CheckResult::Allowed);
}
