use whatsmeow::bus::{EventBus, RecvOutcome};
use whatsmeow::events::Event;

fn tagged(tag: &str) -> Event {
    Event::Unknown { event_type: tag.to_string(), data: None }
}

fn expect_event(outcome: RecvOutcome) -> Event {
    match outcome {
        RecvOutcome::Received(e) => e,
        other => panic!("expected an event, got {:?}", describe(&other)),
    }
}

fn describe(outcome: &RecvOutcome) -> &'static str {
    match outcome {
        RecvOutcome::Received(_) => "Received",
        RecvOutcome::Empty => "Empty",
        RecvOutcome::Lagged(_) => "Lagged",
        RecvOutcome::Closed => "Closed",
    }
}

#[test]
fn subscriber_before_emission_sees_every_event_in_order() {
    let mut bus = EventBus::with_capacity(8);
    let mut sub = bus.subscribe();
    bus.emit(tagged("one"));
    bus.emit(tagged("two"));
    bus.emit(tagged("three"));
    assert_eq!(expect_event(bus.recv(&mut sub)), tagged("one"));
    assert_eq!(expect_event(bus.recv(&mut sub)), tagged("two"));
    assert_eq!(expect_event(bus.recv(&mut sub)), tagged("three"));
    assert!(matches!(bus.recv(&mut sub), RecvOutcome::Empty));
}

#[test]
fn subscriber_after_emission_sees_none_of_the_earlier_events() {
    let mut bus = EventBus::with_capacity(8);
    bus.emit(tagged("early-1"));
    bus.emit(tagged("early-2"));
    let mut sub = bus.subscribe();
    assert!(matches!(bus.recv(&mut sub), RecvOutcome::Empty));
    bus.emit(tagged("late"));
    assert_eq!(expect_event(bus.recv(&mut sub)), tagged("late"));
    assert!(matches!(bus.recv(&mut sub), RecvOutcome::Empty));
}

#[test]
fn two_subscribers_receive_the_same_events_independently() {
    let mut bus = EventBus::with_capacity(8);
    let mut a = bus.subscribe();
    let mut b = bus.subscribe();
    bus.emit(Event::Connected);
    bus.emit(Event::Disconnected);
    assert_eq!(expect_event(bus.recv(&mut a)), Event::Connected);
    assert_eq!(expect_event(bus.recv(&mut b)), Event::Connected);
    assert_eq!(expect_event(bus.recv(&mut a)), Event::Disconnected);
    assert_eq!(expect_event(bus.recv(&mut b)), Event::Disconnected);
}

#[test]
fn lagging_subscriber_is_told_how_much_it_missed_and_recovers() {
    let mut bus = EventBus::with_capacity(2);
    let mut sub = bus.subscribe();
    bus.emit(tagged("a"));
    bus.emit(tagged("b"));
    bus.emit(tagged("c"));
    match bus.recv(&mut sub) {
        RecvOutcome::Lagged(missed) => assert_eq!(missed, 1),
        other => panic!("expected a lag report, got {:?}", describe(&other)),
    }
    assert_eq!(expect_event(bus.recv(&mut sub)), tagged("b"));
    assert_eq!(expect_event(bus.recv(&mut sub)), tagged("c"));
    assert!(matches!(bus.recv(&mut sub), RecvOutcome::Empty));
}

#[test]
fn closing_the_bus_ends_the_stream_after_draining() {
    let mut bus = EventBus::with_capacity(4);
    let mut sub = bus.subscribe();
    bus.emit(tagged("last"));
    bus.close();
    assert_eq!(expect_event(bus.recv(&mut sub)), tagged("last"));
    assert!(matches!(bus.recv(&mut sub), RecvOutcome::Closed));
    assert!(matches!(bus.recv(&mut sub), RecvOutcome::Closed));
}

#[test]
fn default_capacity_bus_works_the_same_way() {
    let mut bus = EventBus::new();
    let mut sub = bus.subscribe();
    bus.emit(Event::HistorySync);
    assert_eq!(expect_event(bus.recv(&mut sub)), Event::HistorySync);
}
