use efl_core::card::{
    Altitude, Card, CardContent, CardStatus, CardType, Intent, IntentType,
};
use efl_core::parking::{ParkingError, ParkingService, WakeCondition};

fn intent() -> Intent {
    Intent {
        id: 7,
        name: "Test Intent".to_string(),
        description: "Test".to_string(),
        intent_type: IntentType::Transform,
        rationale: "Test".to_string(),
        preconditions: vec![],
        estimated_tokens: 100,
        created_at: 1_700_000_000,
    }
}

fn do_now_card(id: u128) -> Card {
    Card {
        id,
        card_type: CardType::DoNow,
        altitude: Altitude::Do,
        title: "Test Card".to_string(),
        content: CardContent::DoNow {
            intent: intent(),
            preview: "Test preview".to_string(),
            diff: None,
        },
        actions: vec![],
        origin_object: None,
        created_at: 1_700_000_000,
        status: CardStatus::Active,
        metadata: None,
    }
}

#[test]
fn test_park_and_unpark() {
    let mut service = ParkingService::new();
    let card = do_now_card(42);
    let wake_time = 1_700_000_000 + 3600;
    let card_id = card.id;

    let parked_id = service.park_card(card.clone(), wake_time, "Testing".to_string());
    assert_eq!(parked_id, card_id);

    let parked_cards = service.get_parked_cards();
    assert_eq!(parked_cards.len(), 1);

    let unparked = service.unpark_card(card_id);
    assert!(unparked.is_some());

    let parked_cards = service.get_parked_cards();
    assert_eq!(parked_cards.len(), 0);
}

#[test]
fn parked_card_takes_the_parked_form() {
    let mut service = ParkingService::new();
    service.park_card(do_now_card(1), 500, "later".to_string());
    let cards = service.get_parked_cards();
    let (card, wake, reason) = &cards[0];
    assert_eq!(card.status, CardStatus::Parked);
    assert_eq!(card.card_type, CardType::Parked);
    match &card.content {
        CardContent::Parked { original_card_id, wake_time, wake_reason } => {
            assert_eq!(*original_card_id, 1);
            assert_eq!(*wake_time, 500);
            assert_eq!(wake_reason, "later");
        }
        _ => panic!("not the parked payload"),
    }
    assert_eq!(*wake, 500);
    assert_eq!(reason, "later");
}

#[test]
fn unpark_returns_the_card_once() {
    let mut service = ParkingService::new();
    service.park_card(do_now_card(9), 100, "r".to_string());
    let first = service.unpark_card(9).expect("parked card comes back");
    assert_eq!(first.id, 9);
    assert_eq!(first.status, CardStatus::Active);
    assert_eq!(first.card_type, CardType::DoNow);
    assert!(matches!(first.content, CardContent::DoNow { .. }));
    assert!(service.unpark_card(9).is_none());
    assert!(service.unpark_card(10).is_none());
}

#[test]
fn parking_the_same_id_twice_keeps_one_entry() {
    let mut service = ParkingService::new();
    service.park_card(do_now_card(3), 100, "first".to_string());
    service.park_card(do_now_card(3), 200, "second".to_string());
    assert_eq!(service.parked_count(), 1);
    let items = service.get_parked_items();
    assert_eq!(items[0].wake_time, 200);
    assert_eq!(items[0].context.as_deref(), Some("second"));
}

#[test]
fn wake_tick_wakes_due_cards_only() {
    let mut service = ParkingService::new();
    service.park_card(do_now_card(1), 100, "a".to_string());
    service.park_card(do_now_card(2), 300, "b".to_string());
    service.park_card(do_now_card(3), 200, "c".to_string());
    let woken = service.wake_due(200);
    let ids: Vec<u128> = woken.iter().map(|c| c.id).collect();
    assert_eq!(ids, vec![1, 3]);
    assert!(woken.iter().all(|c| c.status == CardStatus::Active));
    assert_eq!(service.parked_count(), 1);
    assert_eq!(service.get_parked_items()[0].id, 2);
    assert!(service.wake_due(299).is_empty());
    assert_eq!(service.wake_due(300).len(), 1);
    assert_eq!(service.parked_count(), 0);
}

#[test]
fn snooze_shifts_only_the_wake_time() {
    let mut service = ParkingService::new();
    service.park_card(do_now_card(5), 1000, "meeting".to_string());
    assert_eq!(service.snooze_card(5, 15), Ok(()));
    let items = service.get_parked_items();
    assert_eq!(items.len(), 1);
    assert_eq!(items[0].wake_time, 1900);
    assert_eq!(items[0].title, "Test Card");
    assert_eq!(items[0].context.as_deref(), Some("meeting"));
    assert!(matches!(items[0].wake_conditions[0], WakeCondition::Time(1900)));
    let cards = service.get_parked_cards();
    assert_eq!(cards[0].0.status, CardStatus::Parked);
    assert!(matches!(cards[0].0.content, CardContent::Parked { wake_time: 1900, .. }));
}

#[test]
fn snooze_unknown_id_is_not_found() {
    let mut service = ParkingService::new();
    assert_eq!(service.snooze_card(77, 5), Err(ParkingError::NotFound));
}

#[test]
fn snooze_past_the_clock_range_is_refused() {
    let mut service = ParkingService::new();
    service.park_card(do_now_card(5), i64::MAX - 10, "x".to_string());
    assert_eq!(service.snooze_card(5, 1), Err(ParkingError::OutOfRange));
    assert_eq!(service.get_parked_items()[0].wake_time, i64::MAX - 10);
    assert_eq!(service.snooze_card(5, -1), Ok(()));
    assert_eq!(service.get_parked_items()[0].wake_time, i64::MAX - 70);
}
