use duck_monitor::focus::FocusState;
use duck_monitor::locator::{candidate_port, next_probe, ProbeStep};
use duck_monitor::message::{greet, status_message, welcome_message, Notice, ServiceStatus};

#[test]
fn notice_messages() {
    let m = Notice::FocusChanged(FocusState::Unfocused).to_message("2024-01-01T00:00:00+00:00".to_string());
    assert_eq!(m.message, "⚠️ Distraction detected! Duck spawned.");
    assert_eq!(m.msg_type, "focus_state_change");
    assert_eq!(m.focus_state, Some("unfocused".to_string()));
    assert_eq!(m.timestamp, "2024-01-01T00:00:00+00:00");
    let f = Notice::FocusChanged(FocusState::Focused).to_message(String::new());
    assert_eq!(f.message, "✅ Focus restored!");
    assert_eq!(f.focus_state, Some("focused".to_string()));
    let d = Notice::Disconnected.to_message(String::new());
    assert_eq!(d.message, "EEG Disconnected - Please connect your Muse headset");
    assert_eq!(d.msg_type, "connection_status");
    assert_eq!(d.focus_state, None);
}

#[test]
fn greeting_names_the_caller() {
    assert_eq!(greet("Ada"), "Hello, Ada! You've been greeted from Rust!");
    assert_eq!(greet(""), "Hello, ! You've been greeted from Rust!");
}

#[test]
fn greeting_and_status() {
    let w = welcome_message("t".to_string());
    assert_eq!(w.message, "Connected to Duck Controller!");
    assert_eq!(w.msg_type, "connection");
    assert_eq!(status_message(true, "t".to_string()).message, "EEG Connected");
    assert_eq!(
        status_message(false, "t".to_string()).message,
        "EEG Disconnected - Please connect your Muse headset"
    );
    let s = ServiceStatus::report(true, 7, 1);
    assert!(s.extension_connected && s.muse_connected);
    assert_eq!(s.messages_received, 7);
}

#[test]
fn probe_order() {
    assert_eq!(candidate_port(0), Some(5000));
    assert_eq!(candidate_port(5), Some(5005));
    assert_eq!(candidate_port(6), None);
    assert_eq!(next_probe(&vec![]), ProbeStep::Probe(5000));
    assert_eq!(next_probe(&vec![false, false]), ProbeStep::Probe(5002));
    assert_eq!(next_probe(&vec![false, true]), ProbeStep::Found(5001));
    assert_eq!(next_probe(&vec![false; 6]), ProbeStep::NotFound);
}
