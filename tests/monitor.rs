use duck_monitor::focus::FocusState;
use duck_monitor::message::Notice;
use duck_monitor::monitor::{Monitor, PollOutcome};

fn ok(label: &str) -> PollOutcome {
    PollOutcome::Success(label.to_string())
}

#[test]
fn first_success_connects() {
    let mut m = Monitor::new();
    assert_eq!(m.on_discovery(Some(5002)), Vec::<Notice>::new());
    assert_eq!(m.endpoint(), Some(5002));
    assert_eq!(m.on_poll(ok("High"), 0), vec![Notice::Connected]);
    assert!(m.is_connected());
    assert_eq!(m.on_poll(ok("High"), 500), Vec::<Notice>::new());
}

#[test]
fn failures_then_one_disconnect() {
    let mut m = Monitor::new();
    m.on_discovery(Some(5000));
    m.on_poll(ok("High"), 0);
    let mut all = Vec::new();
    for i in 0..5u64 {
        let n = m.on_poll(PollOutcome::ParseFailure, 500 * (i + 1));
        all.push(n.len());
    }
    assert_eq!(all, vec![0, 0, 0, 0, 1]);
    assert!(!m.is_connected());
    assert_eq!(m.on_poll(PollOutcome::ParseFailure, 9000), Vec::<Notice>::new());
}

#[test]
fn fifth_failure_gives_disconnected_notice() {
    let mut m = Monitor::new();
    m.on_discovery(Some(5000));
    m.on_poll(ok("High"), 0);
    for _ in 0..4 {
        assert_eq!(m.on_poll(PollOutcome::ParseFailure, 100), Vec::<Notice>::new());
    }
    assert_eq!(m.on_poll(PollOutcome::ParseFailure, 100), vec![Notice::Disconnected]);
}

#[test]
fn bad_status_forgets_endpoint() {
    let mut m = Monitor::new();
    m.on_discovery(Some(5001));
    m.on_poll(PollOutcome::BadStatus, 0);
    assert_eq!(m.endpoint(), None);
    m.on_discovery(Some(5003));
    m.on_poll(PollOutcome::TransportFailure, 0);
    assert_eq!(m.endpoint(), None);
    m.on_discovery(Some(5004));
    m.on_poll(PollOutcome::ParseFailure, 0);
    assert_eq!(m.endpoint(), Some(5004));
}

#[test]
fn discovery_failure_counts() {
    let mut m = Monitor::new();
    for _ in 0..4 {
        assert_eq!(m.on_discovery(None), Vec::<Notice>::new());
    }
    assert_eq!(m.on_discovery(None), vec![Notice::Disconnected]);
    assert_eq!(m.on_discovery(None), Vec::<Notice>::new());
    assert_eq!(m.connectivity().consecutive_failures, 6);
}

#[test]
fn medium_low_low_scenario() {
    let mut m = Monitor::new();
    m.on_discovery(Some(5000));
    assert_eq!(m.on_poll(ok("Medium"), 0), vec![Notice::Connected]);
    assert_eq!(m.on_poll(ok("Low"), 100), Vec::<Notice>::new());
    assert_eq!(m.on_poll(ok("Low"), 2000), Vec::<Notice>::new());
    assert_eq!(m.on_poll(ok("Low"), 2300), vec![Notice::FocusChanged(FocusState::Unfocused)]);
    assert_eq!(m.messages_emitted(), 1);
    assert_eq!(m.on_poll(ok("Low"), 5000), Vec::<Notice>::new());
}

#[test]
fn disconnect_clears_focus_window() {
    let mut m = Monitor::new();
    m.on_discovery(Some(5000));
    m.on_poll(ok("High"), 0);
    assert_eq!(m.window_start(), Some(0));
    for _ in 0..5 {
        m.on_poll(PollOutcome::TransportFailure, 1000);
    }
    assert_eq!(m.window_start(), None);
    m.on_discovery(Some(5000));
    assert_eq!(m.on_poll(ok("High"), 10_000), vec![Notice::Connected]);
    assert_eq!(m.window_start(), Some(10_000));
    assert_eq!(m.on_poll(ok("High"), 11_000), Vec::<Notice>::new());
    assert_eq!(m.on_poll(ok("High"), 12_000), vec![Notice::FocusChanged(FocusState::Focused)]);
}

#[test]
fn received_messages_are_counted() {
    let mut m = Monitor::new();
    m.record_received();
    m.record_received();
    let s = m.status(0);
    assert_eq!(s.messages_received, 2);
    assert!(!s.extension_connected);
    assert!(!s.muse_connected);
    assert!(s.http_server && s.websocket_server);
    assert!(m.status(3).extension_connected);
}
