use efl_core::altimeter::{calculate_progress, recommend_altitude, AltimeterProgress};
use efl_core::card::{
    Altitude, AmplifySuggestion, Card, CardContent, CardStatus, CardType, ChipStatus, DoDChip, Draft,
    DraftType, NextTask,
};
use efl_core::feed::FeedService;
use efl_core::registry::CardRegistry;

fn card(id: u128, card_type: CardType, altitude: Altitude, content: CardContent) -> Card {
    Card {
        id,
        card_type,
        altitude,
        title: format!("card {}", id),
        content,
        actions: vec![],
        origin_object: None,
        created_at: 0,
        status: CardStatus::Active,
        metadata: None,
    }
}

fn orient(id: u128, urgency: u16, impact: u16) -> Card {
    card(
        id,
        CardType::Orient,
        Altitude::Orient,
        CardContent::Orient {
            next_tasks: vec![NextTask {
                id: id + 100,
                title: "t".to_string(),
                rationale: "r".to_string(),
                urgency_score: urgency,
                impact_score: impact,
            }],
        },
    )
}

fn ship(id: u128, green: usize, red: usize) -> Card {
    let mut chips = vec![];
    for i in 0..green + red {
        chips.push(DoDChip {
            id: format!("c{}", i),
            label: "check".to_string(),
            status: if i < green { ChipStatus::Green } else { ChipStatus::Red },
            fix_suggestion: None,
        });
    }
    card(id, CardType::Ship, Altitude::Ship, CardContent::Ship { dod_chips: chips, version_tag: "v1".to_string() })
}

fn amplify(id: u128, suggestions: usize, drafts: usize) -> Card {
    let s = (0..suggestions)
        .map(|_| AmplifySuggestion { target: "t".to_string(), action: "a".to_string(), rationale: "r".to_string() })
        .collect();
    let d = (0..drafts)
        .map(|i| Draft { id: i as u128, draft_type: DraftType::EmailDraft, recipient: "x".to_string(), content: "c".to_string() })
        .collect();
    card(id, CardType::Amplify, Altitude::Amplify, CardContent::Amplify { suggestions: s, drafts: d })
}

fn do_now(id: u128) -> Card {
    card(
        id,
        CardType::DoNow,
        Altitude::Do,
        CardContent::BreakIn {
            source: "s".to_string(),
            message: "m".to_string(),
            sender: "x".to_string(),
            urgency: efl_core::card::BreakInUrgency::Low,
        },
    )
}

fn progress(do_count: u8, ship_green: u8, ship_total: u8, amplify_done: u8, amplify_total: u8, orient_ok: bool) -> AltimeterProgress {
    AltimeterProgress { do_count, ship_green, ship_total, amplify_done, amplify_total, orient_ok }
}

#[test]
fn recommends_do_for_three_edits() {
    let (alt, why) = recommend_altitude(&progress(3, 0, 0, 0, 0, true));
    assert_eq!(alt, Altitude::Do);
    assert_eq!(why.as_deref(), Some("3 focused edits available"));
}

#[test]
fn recommends_ship_when_all_checks_green() {
    let (alt, why) = recommend_altitude(&progress(0, 2, 2, 0, 0, true));
    assert_eq!(alt, Altitude::Ship);
    assert_eq!(why.as_deref(), Some("Ready to ship: 2/2 checks green"));
}

#[test]
fn recommends_amplify_with_pending_count() {
    let (alt, why) = recommend_altitude(&progress(2, 1, 2, 1, 13, true));
    assert_eq!(alt, Altitude::Amplify);
    assert_eq!(why.as_deref(), Some("12 audiences need updates"));
}

#[test]
fn recommends_orient_on_conflicts() {
    let (alt, why) = recommend_altitude(&progress(0, 0, 0, 0, 0, false));
    assert_eq!(alt, Altitude::Orient);
    assert_eq!(why.as_deref(), Some("Queue conflicts detected; review priorities"));
}

#[test]
fn recommends_do_by_default_without_rationale() {
    let (alt, why) = recommend_altitude(&AltimeterProgress::new());
    assert_eq!(alt, Altitude::Do);
    assert_eq!(why, None);
}

#[test]
fn do_rule_beats_ship_rule() {
    let (alt, why) = recommend_altitude(&progress(255, 3, 3, 0, 5, false));
    assert_eq!(alt, Altitude::Do);
    assert_eq!(why.as_deref(), Some("255 focused edits available"));
}

#[test]
fn progress_of_empty_set() {
    assert_eq!(calculate_progress(&vec![]), progress(0, 0, 0, 0, 0, true));
}

#[test]
fn progress_folds_each_kind() {
    let cards = vec![do_now(1), ship(2, 1, 2), do_now(3), amplify(4, 3, 1), orient(5, 800, 100)];
    assert_eq!(calculate_progress(&cards), progress(2, 1, 3, 1, 3, false));
}

#[test]
fn last_card_of_a_kind_sets_its_counts_and_any_conflict_clears_orient() {
    let cards = vec![ship(1, 1, 2), orient(2, 900, 0), ship(3, 2, 0), orient(4, 700, 700)];
    assert_eq!(calculate_progress(&cards), progress(0, 2, 2, 0, 0, false));
    let calm = vec![orient(1, 700, 700), orient(2, 100, 0)];
    assert!(calculate_progress(&calm).orient_ok);
}

#[test]
fn counts_saturate_at_255() {
    let cards = vec![ship(1, 256, 4), amplify(2, 300, 1)];
    assert_eq!(calculate_progress(&cards), progress(0, 255, 255, 1, 255, true));
}

#[test]
fn parked_and_other_cards_do_not_count() {
    let mut c = do_now(1);
    c.card_type = CardType::Parked;
    let cards = vec![c];
    assert_eq!(calculate_progress(&cards), AltimeterProgress::new());
}

#[test]
fn feed_orders_by_altitude() {
    let cards = vec![orient(1, 0, 0), do_now(2), ship(3, 0, 0), amplify(4, 0, 0)];
    let feed = FeedService::new().get_feed(&cards, None, 10, 0);
    let alts: Vec<Altitude> = feed.cards.iter().map(|c| c.altitude).collect();
    assert_eq!(alts, vec![Altitude::Do, Altitude::Ship, Altitude::Amplify, Altitude::Orient]);
    let ids: Vec<u128> = feed.cards.iter().map(|c| c.id).collect();
    assert_eq!(ids, vec![2, 3, 4, 1]);
}

#[test]
fn feed_keeps_insertion_order_within_an_altitude_and_cuts_to_limit() {
    let cards = vec![orient(1, 0, 0), do_now(2), orient(3, 0, 0), do_now(4), ship(5, 0, 0)];
    let feed = FeedService::new().get_feed(&cards, None, 3, 4);
    let ids: Vec<u128> = feed.cards.iter().map(|c| c.id).collect();
    assert_eq!(ids, vec![2, 4, 5]);
    assert_eq!(feed.parked_count, 4);
    assert_eq!(FeedService::new().get_feed(&cards, None, 0, 0).cards.len(), 0);
}

#[test]
fn feed_filters_by_altitude_and_status() {
    let mut done = do_now(6);
    done.status = CardStatus::Completed;
    let cards = vec![orient(1, 0, 0), do_now(2), done, orient(3, 0, 0)];
    let feed = FeedService::new().get_feed(&cards, Some(Altitude::Orient), 10, 0);
    let ids: Vec<u128> = feed.cards.iter().map(|c| c.id).collect();
    assert_eq!(ids, vec![1, 3]);
    let all = FeedService::new().get_feed(&cards, None, 10, 0);
    let ids: Vec<u128> = all.cards.iter().map(|c| c.id).collect();
    assert_eq!(ids, vec![2, 1, 3]);
}

#[test]
fn feed_reports_recommended_or_pinned_altitude() {
    let cards = vec![ship(1, 2, 0)];
    let mut service = FeedService::new();
    assert_eq!(service.get_feed(&cards, None, 10, 0).current_altitude, Altitude::Ship);
    service.set_altitude(Altitude::Amplify);
    assert_eq!(service.get_current_altitude(&cards), Altitude::Amplify);
    assert_eq!(service.get_feed(&cards, None, 10, 0).current_altitude, Altitude::Amplify);
}

#[test]
fn put_twice_is_idempotent() {
    let mut registry = CardRegistry::new();
    registry.put(do_now(1));
    registry.put(ship(2, 1, 1));
    registry.put(ship(2, 1, 1));
    assert_eq!(registry.len(), 2);
    let ids: Vec<u128> = registry.list().iter().map(|c| c.id).collect();
    assert_eq!(ids, vec![1, 2]);
    let got = registry.get(2).expect("card 2 is there");
    assert_eq!(got.card_type, CardType::Ship);
    assert!(registry.get(3).is_none());
}

#[test]
fn put_replaces_in_place() {
    let mut registry = CardRegistry::new();
    registry.put(do_now(1));
    registry.put(do_now(2));
    let mut replacement = orient(1, 0, 0);
    replacement.title = "replaced".to_string();
    registry.put(replacement);
    let titles: Vec<String> = registry.list().iter().map(|c| c.title.clone()).collect();
    assert_eq!(titles, vec!["replaced".to_string(), "card 2".to_string()]);
}
