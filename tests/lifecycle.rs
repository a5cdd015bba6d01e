use efl_core::card::{Altitude, Card, CardContent, CardStatus, CardType};
use efl_core::bus::{Delivery, EventBus};
use efl_core::feed::FeedService;
use efl_core::hub::Hub;
use efl_core::lifecycle::{Engine, LifecycleError};
use efl_core::parking::ParkingError;

fn card(id: u128, status: CardStatus) -> Card {
    Card {
        id,
        card_type: CardType::Ship,
        altitude: Altitude::Ship,
        title: format!("card {}", id),
        content: CardContent::Ship { dod_chips: vec![], version_tag: "v".to_string() },
        actions: vec![],
        origin_object: None,
        created_at: 0,
        status,
        metadata: None,
    }
}

fn status_of(e: &Engine, id: u128) -> CardStatus {
    e.registry().get(id).expect("card is registered").status
}

#[test]
fn park_shows_parked_form_and_unpark_restores() {
    let mut e = Engine::new();
    assert_eq!(e.put(card(1, CardStatus::Active)), Ok(()));
    assert_eq!(e.park(1, 100, "later".to_string()), Ok(()));
    let shown = e.registry().get(1).unwrap();
    assert_eq!(shown.status, CardStatus::Parked);
    assert!(matches!(shown.content, CardContent::Parked { original_card_id: 1, wake_time: 100, .. }));
    assert!(e.parking().is_parked(1));
    let back = e.unpark(1).expect("parked card comes back");
    assert_eq!(back.card_type, CardType::Ship);
    assert_eq!(status_of(&e, 1), CardStatus::Active);
    assert!(matches!(e.registry().get(1).unwrap().content, CardContent::Ship { .. }));
    assert!(e.unpark(1).is_none());
}

#[test]
fn park_refusals() {
    let mut e = Engine::new();
    assert_eq!(e.park(9, 100, "x".to_string()), Err(LifecycleError::NotFound));
    e.put(card(2, CardStatus::Completed)).unwrap();
    assert_eq!(e.park(2, 100, "x".to_string()), Err(LifecycleError::Terminal));
    assert_eq!(e.put(card(3, CardStatus::Parked)), Err(LifecycleError::InvalidInput));
    e.put(card(4, CardStatus::Active)).unwrap();
    e.park(4, 100, "x".to_string()).unwrap();
    assert_eq!(e.put(card(4, CardStatus::Active)), Err(LifecycleError::Parked));
}

#[test]
fn second_park_wins() {
    let mut e = Engine::new();
    e.put(card(5, CardStatus::Active)).unwrap();
    e.park(5, 100, "first".to_string()).unwrap();
    e.park(5, 900, "second".to_string()).unwrap();
    assert_eq!(e.parking().parked_count(), 1);
    assert_eq!(e.parking().wake_of(5), Some((900, "second".to_string())));
    let back = e.unpark(5).unwrap();
    assert_eq!(back.card_type, CardType::Ship);
}

#[test]
fn snooze_mirrors_into_the_registry() {
    let mut e = Engine::new();
    e.put(card(6, CardStatus::Active)).unwrap();
    e.park(6, 100, "r".to_string()).unwrap();
    assert_eq!(e.snooze(6, 2), Ok(()));
    assert!(matches!(e.registry().get(6).unwrap().content, CardContent::Parked { wake_time: 220, .. }));
    assert_eq!(e.snooze(7, 2), Err(ParkingError::NotFound));
}

#[test]
fn wake_due_unparks_each_due_card_once() {
    let mut e = Engine::new();
    for id in 1..=3u128 {
        e.put(card(id, CardStatus::Active)).unwrap();
    }
    e.park(1, 50, "a".to_string()).unwrap();
    e.park(2, 500, "b".to_string()).unwrap();
    e.park(3, 60, "c".to_string()).unwrap();
    let mut woken = e.wake_due(100);
    woken.sort();
    assert_eq!(woken, vec![1, 3]);
    assert_eq!(status_of(&e, 1), CardStatus::Active);
    assert_eq!(status_of(&e, 2), CardStatus::Parked);
    assert_eq!(status_of(&e, 3), CardStatus::Active);
    assert!(e.wake_due(100).is_empty());
    assert!(e.unpark(1).is_none());
}

#[test]
fn finish_wakes_and_closes() {
    let mut e = Engine::new();
    e.put(card(8, CardStatus::Active)).unwrap();
    e.park(8, 100, "x".to_string()).unwrap();
    assert_eq!(e.finish(8, CardStatus::Cancelled), Ok(()));
    assert_eq!(status_of(&e, 8), CardStatus::Cancelled);
    assert!(!e.parking().is_parked(8));
    assert_eq!(e.finish(99, CardStatus::Completed), Err(LifecycleError::NotFound));
}

#[test]
fn engine_feed_reports_parked_count() {
    let mut e = Engine::new();
    e.put(card(1, CardStatus::Active)).unwrap();
    e.put(card(2, CardStatus::Active)).unwrap();
    e.park(2, 100, "x".to_string()).unwrap();
    let feed = e.get_feed(&FeedService::new(), None, 10);
    assert_eq!(feed.parked_count, 1);
    let ids: Vec<u128> = feed.cards.iter().map(|c| c.id).collect();
    assert_eq!(ids, vec![1]);
}

#[test]
fn hub_heartbeat_reports_current_cards() {
    let mut hub = Hub { engine: Engine::new(), bus: EventBus::new(8) };
    let mut c = card(1, CardStatus::Active);
    c.content = CardContent::Ship {
        dod_chips: vec![efl_core::card::DoDChip {
            id: "c".to_string(),
            label: "l".to_string(),
            status: efl_core::card::ChipStatus::Green,
            fix_suggestion: None,
        }],
        version_tag: "v".to_string(),
    };
    hub.engine.put(c).unwrap();
    let id = hub.bus.subscribe("h".to_string()).unwrap();
    hub.heartbeat();
    assert!(matches!(hub.bus.poll(id), Some(Delivery::Hydrate(_))));
    match hub.bus.poll(id) {
        Some(Delivery::Heartbeat { progress, altitude }) => {
            assert_eq!((progress.ship_green, progress.ship_total), (1, 1));
            assert_eq!(altitude, Altitude::Ship);
        }
        _ => panic!("expected a heartbeat"),
    }
}
