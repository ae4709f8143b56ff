use smokeping::hub::{BroadcastHub, Received, HUB_CAPACITY};
use smokeping::sample::LiveEvent;

fn ev(n: u64) -> LiveEvent {
    LiveEvent { target_id: 1, is_lost: false, rtt_us: n }
}

#[test]
fn publish_without_subscribers_keeps_nothing() {
    let mut hub = BroadcastHub::new();
    for i in 0..1000u64 {
        assert_eq!(hub.publish(ev(i)), 0);
    }
    assert_eq!(hub.subscriber_count(), 0);
    let id = hub.subscribe().unwrap();
    assert_eq!(hub.recv(id), Received::Empty);
}

#[test]
fn subscriber_receives_in_order() {
    let mut hub = BroadcastHub::new();
    let id = hub.subscribe().unwrap();
    assert_eq!(hub.publish(ev(1)), 1);
    hub.publish(ev(2));
    hub.publish(ev(3));
    assert_eq!(hub.recv(id), Received::Event(ev(1)));
    assert_eq!(hub.recv(id), Received::Event(ev(2)));
    assert_eq!(hub.recv(id), Received::Event(ev(3)));
    assert_eq!(hub.recv(id), Received::Empty);
}

#[test]
fn slow_subscriber_sees_gap_then_newest() {
    let mut hub = BroadcastHub::new();
    let slow = hub.subscribe().unwrap();
    let fast = hub.subscribe().unwrap();
    for i in 0..250u64 {
        hub.publish(ev(i));
        assert_eq!(hub.recv(fast), Received::Event(ev(i)));
    }
    assert_eq!(hub.recv(slow), Received::Gap { missed: 150 });
    for i in 150..250u64 {
        assert_eq!(hub.recv(slow), Received::Event(ev(i)));
    }
    assert_eq!(hub.recv(slow), Received::Empty);
    assert_eq!(HUB_CAPACITY, 100);
}

#[test]
fn small_backlog_drops_oldest() {
    let mut hub = BroadcastHub::with_capacity(2);
    let id = hub.subscribe().unwrap();
    hub.publish(ev(1));
    hub.publish(ev(2));
    hub.publish(ev(3));
    assert_eq!(hub.recv(id), Received::Gap { missed: 1 });
    assert_eq!(hub.recv(id), Received::Event(ev(2)));
    assert_eq!(hub.recv(id), Received::Event(ev(3)));
}

#[test]
fn subscription_sees_only_later_events() {
    let mut hub = BroadcastHub::new();
    hub.publish(ev(1));
    let id = hub.subscribe().unwrap();
    hub.publish(ev(2));
    assert_eq!(hub.recv(id), Received::Event(ev(2)));
    assert_eq!(hub.recv(id), Received::Empty);
}

#[test]
fn unsubscribe_releases_subscription() {
    let mut hub = BroadcastHub::new();
    let a = hub.subscribe().unwrap();
    let b = hub.subscribe().unwrap();
    assert_ne!(a, b);
    assert!(hub.unsubscribe(a));
    assert!(!hub.unsubscribe(a));
    assert_eq!(hub.publish(ev(5)), 1);
    assert_eq!(hub.recv(a), Received::Closed);
    assert_eq!(hub.recv(b), Received::Event(ev(5)));
}
