use vh_notification_sound::lock::{
    acquire_lock, collect_request, lock_owner, parse_legacy_pid, LockFile, LockInfo, LockOutcome,
    NotificationState, POLL_INTERVAL,
};
use vh_notification_sound::queue::RequestQueue;

fn record_of(pid: u32, state: NotificationState, request: Option<&str>) -> LockInfo {
    LockInfo { pid, state, new_request: request.map(|sound| sound.to_string()) }
}

#[test]
fn new_record_is_idle_without_a_request() {
    assert_eq!(LockInfo::new(77), record_of(77, NotificationState::Idle, None));
}

#[test]
fn record_updates_touch_one_field_each() {
    let record = record_of(5, NotificationState::Idle, Some("a.wav"));
    assert_eq!(
        record.clone().with_state(NotificationState::Playing),
        record_of(5, NotificationState::Playing, Some("a.wav"))
    );
    assert_eq!(
        record.clone().with_request("b.wav".to_string()),
        record_of(5, NotificationState::Idle, Some("b.wav"))
    );
    assert_eq!(record.without_request(), record_of(5, NotificationState::Idle, None));
}

#[test]
fn absent_lock_makes_a_leader_with_nothing_to_discard() {
    let outcome = acquire_lock(LockFile::Absent, false, 100, "beep.wav".to_string());
    assert_eq!(outcome, LockOutcome::Leader { discard: false, record: LockInfo::new(100) });
    let outcome = acquire_lock(LockFile::Absent, true, 100, "beep.wav".to_string());
    assert_eq!(outcome, LockOutcome::Leader { discard: false, record: LockInfo::new(100) });
}

#[test]
fn live_owner_receives_the_request() {
    let found = LockFile::Record(record_of(55, NotificationState::Playing, None));
    let outcome = acquire_lock(found, true, 100, "ding.wav".to_string());
    assert_eq!(
        outcome,
        LockOutcome::Enqueued {
            record: record_of(55, NotificationState::Playing, Some("ding.wav"))
        }
    );
}

#[test]
fn later_request_overwrites_the_one_waiting() {
    let found = LockFile::Record(record_of(55, NotificationState::FadingIn, Some("old.wav")));
    let outcome = acquire_lock(found, true, 100, "new.wav".to_string());
    assert_eq!(
        outcome,
        LockOutcome::Enqueued {
            record: record_of(55, NotificationState::FadingIn, Some("new.wav"))
        }
    );
}

#[test]
fn stale_record_is_discarded_and_taken_over() {
    let found = LockFile::Record(record_of(55, NotificationState::Playing, Some("old.wav")));
    let outcome = acquire_lock(found, false, 100, "beep.wav".to_string());
    assert_eq!(outcome, LockOutcome::Leader { discard: true, record: LockInfo::new(100) });
}

#[test]
fn old_format_with_live_owner_is_busy() {
    let found = LockFile::Other(" 4242\n".to_string());
    assert_eq!(lock_owner(&found), Some(4242));
    let outcome = acquire_lock(found, true, 100, "beep.wav".to_string());
    assert_eq!(outcome, LockOutcome::Busy { pid: 4242 });
}

#[test]
fn old_format_with_dead_owner_is_taken_over() {
    let found = LockFile::Other("4242".to_string());
    let outcome = acquire_lock(found, false, 100, "beep.wav".to_string());
    assert_eq!(outcome, LockOutcome::Leader { discard: true, record: LockInfo::new(100) });
}

#[test]
fn unreadable_lock_is_taken_over_whatever_the_process_table_says() {
    for text in ["", "{\"pid\": ", "not a number", "12 34"] {
        let found = LockFile::Other(text.to_string());
        assert_eq!(lock_owner(&found), None);
        let outcome = acquire_lock(found, true, 100, "beep.wav".to_string());
        assert_eq!(outcome, LockOutcome::Leader { discard: true, record: LockInfo::new(100) });
    }
}

#[test]
fn lock_owner_names_the_process_to_look_for() {
    assert_eq!(lock_owner(&LockFile::Absent), None);
    let record = LockFile::Record(record_of(4_000_000_000, NotificationState::Idle, None));
    assert_eq!(lock_owner(&record), Some(4_000_000_000));
    assert_eq!(lock_owner(&LockFile::Other("-7".to_string())), Some(-7));
}

#[test]
fn legacy_pid_is_read_as_std_reads_it() {
    let texts = [
        "1234", " 1234 ", "\t1234\r\n", "+12", "-12", "-0", "0007", "", " ", "+", "-", "12a", "1 2",
        "2147483647", "2147483648", "-2147483648", "-2147483649", "99999999999999999999",
        "\u{a0}15\u{3000}", "１２",
    ];
    for text in texts {
        assert_eq!(parse_legacy_pid(text), text.trim().parse::<i32>().ok(), "{:?}", text);
    }
    assert_eq!(parse_legacy_pid(" 1234 "), Some(1234));
    assert_eq!(parse_legacy_pid("-2147483648"), Some(i32::MIN));
    assert_eq!(parse_legacy_pid("2147483648"), None);
}

#[test]
fn collect_request_moves_the_request_to_the_queue() {
    let mut queue = RequestQueue::new();
    queue.enqueue("first.wav".to_string());
    let record = record_of(1, NotificationState::Playing, Some("second.wav"));
    assert!(collect_request(&record, &mut queue));
    assert_eq!(queue.len(), 2);
    assert_eq!(queue.take_latest(), Some("second.wav".to_string()));
}

#[test]
fn collect_request_without_a_request_changes_nothing() {
    let mut queue = RequestQueue::new();
    queue.enqueue("first.wav".to_string());
    let record = record_of(1, NotificationState::Playing, None);
    assert!(!collect_request(&record, &mut queue));
    assert_eq!(queue.len(), 1);
}

#[test]
fn poll_interval_is_ten_milliseconds() {
    assert_eq!(POLL_INTERVAL, 10_000_000);
}
