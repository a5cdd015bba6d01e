use efl_core::altimeter::calculate_progress;
use efl_core::card::{CardContent, CardStatus, CardType};
use efl_core::demo::{
    generate_mock_amplify_card, generate_mock_breakin_card, generate_mock_do_now_card, generate_mock_orient_card,
    generate_mock_parked_card, generate_mock_ship_card, get_demo_feed,
};
use efl_core::parking::ParkingService;

#[test]
fn sample_cards_feed_the_altimeter() {
    let cards = vec![
        generate_mock_do_now_card(),
        generate_mock_ship_card(),
        generate_mock_amplify_card(),
        generate_mock_orient_card(),
        generate_mock_breakin_card(),
    ];
    let p = calculate_progress(&cards);
    assert_eq!(p.do_count, 1);
    assert_eq!((p.ship_green, p.ship_total), (2, 4));
    assert_eq!((p.amplify_done, p.amplify_total), (2, 3));
    assert!(!p.orient_ok);
}

#[test]
fn sample_parked_card_points_at_its_original() {
    let c = generate_mock_parked_card(99);
    assert_eq!(c.status, CardStatus::Parked);
    assert_eq!(c.card_type, CardType::Parked);
    assert!(matches!(c.content, CardContent::Parked { original_card_id: 99, .. }));
}

#[test]
fn demo_feed_parks_two_cards() {
    let mut parking = ParkingService::new();
    let feed = get_demo_feed(&mut parking);
    assert_eq!(feed.cards.len(), 5);
    assert_eq!(feed.parked_count, 2);
    assert_eq!(feed.parked_items.len(), 2);
    let woken = parking.wake_due(chrono::Utc::now().timestamp());
    assert_eq!(woken.len(), 1);
    assert_eq!(woken[0].card_type, CardType::Ship);
}
