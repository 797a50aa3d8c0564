use air_sensors::power::{PowerEvent, PowerEventData, PowerEventType};
use air_sensors::pubsub::{Callback, OwnedPubSub, PubSub, Subscription};
use std::cell::Cell;

fn event(level: u8) -> PowerEvent {
    PowerEvent {
        type_: PowerEventType::BatteryLevelChanged,
        data: PowerEventData { battery_level: level },
    }
}

/// Stands for the host: hands the event to every subscriber that the bus
/// names, in its order.
fn publish<F: Fn(&PowerEvent), G: Fn(&PowerEvent)>(
    bus: &PubSub<PowerEvent>,
    first: Option<&Subscription<PowerEvent, F>>,
    second: Option<&Subscription<PowerEvent, G>>,
    event: &PowerEvent,
) {
    for token in bus.recipients() {
        if let Some(s) = first {
            if s.token() == token {
                s.deliver(event);
            }
        }
        if let Some(s) = second {
            if s.token() == token {
                s.deliver(event);
            }
        }
    }
}

#[test]
fn callback_hands_the_event_on() {
    let seen = Cell::new(0u32);
    let cb = Callback::new(|e: &PowerEvent| seen.set(seen.get() + e.data.battery_level as u32));
    cb.on_callback(&event(40));
    cb.on_callback(&event(2));
    assert_eq!(seen.get(), 42);
}

#[test]
fn new_bus_has_no_subscribers() {
    let bus: PubSub<PowerEvent> = PubSub::new();
    assert_eq!(bus.subscriber_count(), 0);
    assert_eq!(bus.recipients(), Vec::<u64>::new());
    assert!(!bus.is_subscribed(0));
}

#[test]
fn unsubscribed_callback_is_not_invoked() {
    let count = Cell::new(0u32);
    let never = Cell::new(0u32);
    let mut bus: PubSub<PowerEvent> = PubSub::new();
    let sub = bus.subscribe(Callback::new(|_: &PowerEvent| count.set(count.get() + 1)));
    let token = sub.token();
    let none = bus.subscribe(Callback::new(|_: &PowerEvent| never.set(never.get() + 1)));
    bus.unsubscribe(none);

    publish(&bus, Some(&sub), Some(&sub), &event(1));
    assert!(count.get() > 0);
    let before = count.get();
    assert!(bus.is_subscribed(token));

    bus.unsubscribe(sub);
    assert!(!bus.is_subscribed(token));
    assert_eq!(bus.recipients(), Vec::<u64>::new());
    assert_eq!(count.get(), before);
    assert_eq!(never.get(), 0);
}

#[test]
fn two_subscriptions_are_independent() {
    let a_count = Cell::new(0u32);
    let b_count = Cell::new(0u32);
    let mut bus: PubSub<PowerEvent> = PubSub::new();
    let a = bus.subscribe(Callback::new(|_: &PowerEvent| a_count.set(a_count.get() + 1)));
    let b = bus.subscribe(Callback::new(|e: &PowerEvent| {
        b_count.set(b_count.get() + e.data.battery_level as u32)
    }));
    assert_ne!(a.token(), b.token());
    assert_eq!(bus.recipients(), vec![a.token(), b.token()]);

    publish(&bus, Some(&a), Some(&b), &event(10));
    publish(&bus, Some(&a), Some(&b), &event(10));
    assert_eq!(a_count.get(), 2);
    assert_eq!(b_count.get(), 20);

    let b_token = b.token();
    bus.unsubscribe(a);
    assert_eq!(bus.recipients(), vec![b_token]);
    publish(&bus, None::<&Subscription<PowerEvent, fn(&PowerEvent)>>, Some(&b), &event(10));
    assert_eq!(a_count.get(), 2);
    assert_eq!(b_count.get(), 30);

    bus.unsubscribe(b);
    assert_eq!(bus.subscriber_count(), 0);
}

#[test]
fn tokens_are_not_given_out_twice() {
    let mut bus: PubSub<PowerEvent> = PubSub::new();
    let a = bus.subscribe(Callback::new(|_: &PowerEvent| {}));
    let first = a.token();
    bus.unsubscribe(a);
    let b = bus.subscribe(Callback::new(|_: &PowerEvent| {}));
    let c = bus.subscribe(Callback::new(|_: &PowerEvent| {}));
    assert_ne!(b.token(), first);
    assert_ne!(c.token(), first);
    assert_ne!(b.token(), c.token());
    assert!(!bus.is_subscribed(first));
    assert_eq!(bus.recipients(), vec![b.token(), c.token()]);
    assert_eq!(bus.subscriber_count(), 2);
}

#[test]
fn handle_of_another_bus_changes_nothing() {
    let mut one: PubSub<PowerEvent> = PubSub::new();
    let mut other: PubSub<PowerEvent> = PubSub::new();
    let a = one.subscribe(Callback::new(|_: &PowerEvent| {}));
    let skipped = other.subscribe(Callback::new(|_: &PowerEvent| {}));
    let b = other.subscribe(Callback::new(|_: &PowerEvent| {}));
    other.unsubscribe(skipped);
    let a_token = a.token();
    assert_ne!(a_token, b.token());
    one.unsubscribe(b);
    assert_eq!(one.recipients(), vec![a_token]);
    assert!(one.is_subscribed(a_token));
}

#[test]
fn owned_bus_is_used_through_its_bus() {
    let hits = Cell::new(0u32);
    let mut owned: OwnedPubSub<PowerEvent> = OwnedPubSub::create_owned();
    assert_eq!(owned.deref().subscriber_count(), 0);
    let sub = owned.deref_mut().subscribe(Callback::new(|_: &PowerEvent| hits.set(hits.get() + 1)));
    assert_eq!(owned.deref().recipients(), vec![sub.token()]);
    sub.deliver(&event(0));
    assert_eq!(hits.get(), 1);
    owned.deref_mut().unsubscribe(sub);
    assert_eq!(owned.deref().subscriber_count(), 0);
    owned.free();
}
