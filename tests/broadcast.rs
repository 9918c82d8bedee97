use duck_monitor::broadcast::{Broadcaster, Subscription, DEFAULT_CAPACITY};
use duck_monitor::message::{DuckMessage, Notice};

fn event(i: usize) -> DuckMessage {
    DuckMessage {
        message: format!("event {}", i),
        timestamp: String::new(),
        msg_type: "test".to_string(),
        focus_state: None,
    }
}

#[test]
fn keeps_last_hundred_of_150() {
    let mut b = Broadcaster::new(DEFAULT_CAPACITY);
    let s = b.subscribe().unwrap();
    for i in 0..150 {
        b.publish(&event(i));
    }
    let got = b.pending(s);
    assert_eq!(got.len(), 100);
    for (k, m) in got.iter().enumerate() {
        assert_eq!(m.message, format!("event {}", k + 50));
    }
    assert_eq!(b.receive(s).unwrap().message, "event 50");
    assert_eq!(b.pending(s).len(), 99);
}

#[test]
fn subscribers_see_only_later_events() {
    let mut b = Broadcaster::new(10);
    let a = b.subscribe().unwrap();
    b.publish(&event(1));
    let c = b.subscribe().unwrap();
    b.publish(&event(2));
    assert_eq!(b.pending(a).len(), 2);
    assert_eq!(b.pending(c).len(), 1);
    assert_eq!(b.receive(c).unwrap().message, "event 2");
    assert!(b.receive(c).is_none());
    assert_eq!(b.receive(a).unwrap().message, "event 1");
}

#[test]
fn subscriber_count_tracks_unsubscribe() {
    let mut b = Broadcaster::new(4);
    assert_eq!(b.subscriber_count(), 0);
    let a = b.subscribe().unwrap();
    let c = b.subscribe().unwrap();
    assert_eq!(b.subscriber_count(), 2);
    b.publish(&event(0));
    b.unsubscribe(a);
    assert_eq!(b.subscriber_count(), 1);
    assert!(b.receive(a).is_none());
    b.unsubscribe(a);
    assert_eq!(b.subscriber_count(), 1);
    b.unsubscribe(Subscription { slot: 99 });
    assert_eq!(b.pending(c).len(), 1);
}

#[test]
fn closed_broadcaster_refuses_subscribers() {
    let mut b = Broadcaster::new(2);
    let a = b.subscribe().unwrap();
    b.close();
    assert!(b.subscribe().is_none());
    b.publish(&Notice::Connected.to_message("t".to_string()));
    assert_eq!(b.receive(a).unwrap().message, "EEG Connected");
}
