use duck_monitor::connectivity::{ConnectivityState, FAILURE_THRESHOLD};

fn connected() -> ConnectivityState {
    let mut c = ConnectivityState::new();
    assert!(c.record_success());
    c
}

#[test]
fn five_failures_one_disconnect() {
    let mut c = connected();
    let mut notices = Vec::new();
    for _ in 0..5 {
        notices.push(c.record_failure());
    }
    assert_eq!(notices, vec![false, false, false, false, true]);
    assert!(!c.connected);
}

#[test]
fn further_failures_stay_silent() {
    let mut c = connected();
    let mut count = 0;
    for _ in 0..50 {
        if c.record_failure() {
            count += 1;
        }
    }
    assert_eq!(count, 1);
    assert!(c.disconnect_notified);
}

#[test]
fn success_reconnects_once() {
    let mut c = connected();
    assert!(!c.record_success());
    for _ in 0..5 {
        c.record_failure();
    }
    assert!(c.record_success());
    assert!(c.connected);
    assert_eq!(c.consecutive_failures, 0);
    assert!(!c.disconnect_notified);
    assert!(!c.record_success());
}

#[test]
fn success_resets_failure_run() {
    let mut c = connected();
    for _ in 0..4 {
        assert!(!c.record_failure());
    }
    assert!(!c.record_success());
    for _ in 0..4 {
        assert!(!c.record_failure());
    }
    assert!(c.connected);
    assert!(c.record_failure());
}

#[test]
fn never_connected_announces_at_threshold() {
    let mut c = ConnectivityState::new();
    for _ in 0..4 {
        assert!(!c.record_failure());
    }
    assert_eq!(c.consecutive_failures, 4);
    assert!(c.record_failure());
    assert!(!c.record_failure());
    assert!(c.disconnect_notified);
}

#[test]
fn reconnection_rearms_the_notice() {
    let mut c = connected();
    for _ in 0..6 {
        c.record_failure();
    }
    assert!(c.record_success());
    let mut notices = Vec::new();
    for _ in 0..7 {
        notices.push(c.record_failure());
    }
    assert_eq!(notices, vec![false, false, false, false, true, false, false]);
}

#[test]
fn failure_count_saturates() {
    let mut c = ConnectivityState { connected: false, consecutive_failures: u32::MAX, disconnect_notified: true };
    assert!(!c.record_failure());
    assert_eq!(c.consecutive_failures, u32::MAX);
    assert_eq!(FAILURE_THRESHOLD, 5);
}
