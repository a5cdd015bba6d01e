use efl_core::altimeter::AltimeterProgress;
use efl_core::bus::{BusEvent, Delivery, EventBus};

fn event(name: &str, data: &str) -> BusEvent {
    BusEvent { event: name.to_string(), data: data.to_string() }
}

fn names(bus: &mut EventBus, id: u64) -> Vec<String> {
    let mut out = vec![];
    while let Some(d) = bus.poll(id) {
        out.push(match d {
            Delivery::Hydrate(data) => format!("hydrate:{}", data),
            Delivery::Heartbeat { progress, altitude } => format!("heartbeat:{}:{:?}", progress.do_count, altitude),
            Delivery::Event(e) => format!("{}:{}", e.event, e.data),
        });
    }
    out
}

#[test]
fn late_subscriber_sees_only_later_events() {
    let mut bus = EventBus::new(16);
    let early = bus.subscribe("h0".to_string()).unwrap();
    bus.publish(event("card.new", "1"));
    bus.publish(event("card.new", "2"));
    let late = bus.subscribe("h1".to_string()).unwrap();
    bus.publish(event("wake.fire", "3"));
    assert_eq!(names(&mut bus, late), vec!["hydrate:h1", "wake.fire:3"]);
    assert_eq!(names(&mut bus, early), vec!["hydrate:h0", "card.new:1", "card.new:2", "wake.fire:3"]);
}

#[test]
fn heartbeats_merge_in_order() {
    let mut bus = EventBus::new(16);
    let id = bus.subscribe("h".to_string()).unwrap();
    let mut p = AltimeterProgress::new();
    p.do_count = 4;
    bus.heartbeat(p);
    bus.publish(event("park", "x"));
    bus.heartbeat(AltimeterProgress::new());
    assert_eq!(names(&mut bus, id), vec!["hydrate:h", "heartbeat:4:Do", "park:x", "heartbeat:0:Do"]);
}

#[test]
fn full_queue_drops_its_oldest_item() {
    let mut bus = EventBus::new(2);
    let id = bus.subscribe("h".to_string()).unwrap();
    bus.publish(event("e", "1"));
    bus.publish(event("e", "2"));
    bus.publish(event("e", "3"));
    assert_eq!(names(&mut bus, id), vec!["e:2", "e:3"]);
    assert!(bus.poll(id).is_none());
}

#[test]
fn subscribers_get_independent_copies() {
    let mut bus = EventBus::new(4);
    let a = bus.subscribe("a".to_string()).unwrap();
    let b = bus.subscribe("b".to_string()).unwrap();
    assert_ne!(a, b);
    bus.publish(event("e", "1"));
    assert_eq!(names(&mut bus, a), vec!["hydrate:a", "e:1"]);
    assert_eq!(names(&mut bus, b), vec!["hydrate:b", "e:1"]);
}

#[test]
fn unsubscribed_reader_gets_nothing() {
    let mut bus = EventBus::new(4);
    let a = bus.subscribe("a".to_string()).unwrap();
    assert!(bus.unsubscribe(a));
    assert!(!bus.unsubscribe(a));
    bus.publish(event("e", "1"));
    assert!(bus.poll(a).is_none());
}

#[test]
fn heartbeat_carries_the_recommended_altitude() {
    let mut bus = EventBus::new(4);
    let id = bus.subscribe("h".to_string()).unwrap();
    let mut p = AltimeterProgress::new();
    p.ship_green = 2;
    p.ship_total = 2;
    bus.heartbeat(p);
    assert_eq!(names(&mut bus, id), vec!["hydrate:h", "heartbeat:0:Ship"]);
}
