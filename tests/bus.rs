use profile_sync::bus::{EventBus, RecvOutcome};
use profile_sync::types::{Profile, WsEvent};

fn profile(id: i64, name: &str) -> Profile {
    Profile {
        id,
        user_id: id * 10,
        display_name: name.to_string(),
        bio: None,
        updated_at: format!("2024-01-01 00:00:{:02}", id),
    }
}

fn event_id(o: &RecvOutcome) -> i64 {
    match o {
        RecvOutcome::Event(e) => e.profile().id,
        other => panic!("expected an event, got {:?}", other),
    }
}

#[test]
fn subscriber_sees_events_in_publish_order() {
    let mut bus = EventBus::new(4);
    let id = bus.subscribe().unwrap();
    bus.publish(&WsEvent::ProfileCreated(profile(1, "a")));
    bus.publish(&WsEvent::ProfileUpdated(profile(2, "b")));
    assert_eq!(event_id(&bus.try_recv(id)), 1);
    assert_eq!(event_id(&bus.try_recv(id)), 2);
    assert!(matches!(bus.try_recv(id), RecvOutcome::Empty));
}

#[test]
fn new_subscriber_gets_no_history() {
    let mut bus = EventBus::new(4);
    let early = bus.subscribe().unwrap();
    bus.publish(&WsEvent::ProfileCreated(profile(1, "a")));
    let late = bus.subscribe().unwrap();
    assert!(matches!(bus.try_recv(late), RecvOutcome::Empty));
    assert_eq!(event_id(&bus.try_recv(early)), 1);
}

#[test]
fn publish_without_subscribers_is_accepted() {
    let mut bus = EventBus::new(1);
    bus.publish(&WsEvent::ProfileCreated(profile(1, "a")));
    assert_eq!(bus.subscriber_count(), 0);
}

#[test]
fn full_queue_drops_oldest_and_reports_lag() {
    let mut bus = EventBus::new(2);
    let slow = bus.subscribe().unwrap();
    for i in 1..=5 {
        bus.publish(&WsEvent::ProfileUpdated(profile(i, "x")));
    }
    assert!(matches!(bus.try_recv(slow), RecvOutcome::Lagged(3)));
    assert_eq!(event_id(&bus.try_recv(slow)), 4);
    assert_eq!(event_id(&bus.try_recv(slow)), 5);
    assert!(matches!(bus.try_recv(slow), RecvOutcome::Empty));
}

#[test]
fn slow_subscriber_does_not_affect_others() {
    let mut bus = EventBus::new(2);
    let slow = bus.subscribe().unwrap();
    let fast = bus.subscribe().unwrap();
    for i in 1..=6 {
        bus.publish(&WsEvent::ProfileUpdated(profile(i, "x")));
        assert_eq!(event_id(&bus.try_recv(fast)), i);
    }
    assert!(matches!(bus.try_recv(fast), RecvOutcome::Empty));
    assert!(matches!(bus.try_recv(slow), RecvOutcome::Lagged(4)));
}

#[test]
fn two_clients_each_receive_one_message() {
    let mut bus = EventBus::new(100);
    let c1 = bus.subscribe().unwrap();
    let c2 = bus.subscribe().unwrap();
    bus.publish(&WsEvent::ProfileUpdated(profile(7, "shared")));
    assert_eq!(event_id(&bus.try_recv(c2)), 7);
    assert!(matches!(bus.try_recv(c2), RecvOutcome::Empty));
    assert_eq!(event_id(&bus.try_recv(c1)), 7);
    assert!(matches!(bus.try_recv(c1), RecvOutcome::Empty));
}

#[test]
fn unsubscribed_receiver_is_closed() {
    let mut bus = EventBus::new(3);
    let id = bus.subscribe().unwrap();
    bus.publish(&WsEvent::ProfileCreated(profile(1, "a")));
    bus.unsubscribe(id);
    assert_eq!(bus.subscriber_count(), 0);
    assert!(matches!(bus.try_recv(id), RecvOutcome::Closed));
    assert!(matches!(bus.try_recv(42), RecvOutcome::Closed));
}

#[test]
fn event_copy_keeps_kind_and_record() {
    let e = WsEvent::ProfileCreated(profile(3, "c"));
    let d = e.duplicate();
    assert!(d.is_created());
    assert_eq!(d.profile().display_name, "c");
    assert_eq!(d.wire_type(), "Profile");
    assert!(!WsEvent::ProfileUpdated(profile(1, "a")).is_created());
}
