use efl_core::altimeter::create_altimeter_event;
use efl_core::card::{Altitude, Card, CardContent, CardStatus, CardType, IntentType};
use efl_core::intents::{ContextSignals, IntentService};
use efl_core::mail::GmailCardService;

fn ctx(object_type: &str, signals: &[&str]) -> ContextSignals {
    ContextSignals {
        object_type: object_type.to_string(),
        structure_signals: signals.iter().map(|s| s.to_string()).collect(),
        recent_actions: vec![],
        semantic_keywords: vec![],
    }
}

fn names(v: &[efl_core::card::Intent]) -> Vec<String> {
    v.iter().map(|i| i.name.clone()).collect()
}

#[test]
fn text_with_missing_header_gets_three_intents() {
    let s = IntentService::new();
    let v = s.generate_intents(&ctx("text", &["missing_header"]), 5);
    assert_eq!(names(&v), vec!["Add problem statement header", "Tighten for clarity", "Extract key points"]);
    assert_eq!(v[0].estimated_tokens, 800);
    assert_eq!(v[2].intent_type, IntentType::Summarize);
    assert_eq!(v[1].preconditions, vec!["block.type == 'text'".to_string()]);
}

#[test]
fn other_objects_get_next_steps_up_to_three() {
    let s = IntentService::new();
    let v = s.generate_intents(&ctx("image", &[]), 5);
    assert_eq!(names(&v), vec!["Suggest next steps"; 3]);
    assert!(v[0].preconditions.is_empty());
    let v = s.generate_intents(&ctx("image", &[]), 2);
    assert_eq!(v.len(), 2);
    assert!(s.generate_intents(&ctx("text", &[]), 0).is_empty());
}

#[test]
fn count_cuts_the_list() {
    let s = IntentService::new();
    let v = s.generate_intents(&ctx("text", &["missing_header"]), 2);
    assert_eq!(names(&v), vec!["Add problem statement header", "Tighten for clarity"]);
}

#[test]
fn palette_defaults_to_text() {
    let s = IntentService::new();
    let p = s.generate_palette(Some("doc1".to_string()), None);
    assert_eq!(p.context_signals.object_type, "text");
    assert_eq!(p.active_object_id.as_deref(), Some("doc1"));
    assert_eq!(names(&p.intents), vec!["Tighten for clarity", "Extract key points", "Suggest next steps"]);
    let i = s.get_intent(12).unwrap();
    assert_eq!(i.id, 12);
    assert_eq!(i.name, "Sample Intent");
}

#[test]
fn altimeter_event_names_the_altitude() {
    let ev = create_altimeter_event(&vec![]);
    assert_eq!(ev.kind, "altimeter.update");
    assert_eq!(ev.system_altitude, "Do");
    assert_eq!(ev.rationale, None);
}

#[test]
fn batch_review_card_lists_cards_as_tasks() {
    let s = GmailCardService::new();
    let card = Card {
        id: 44,
        card_type: CardType::Orient,
        altitude: Altitude::Orient,
        title: "Old mail".to_string(),
        content: CardContent::Orient { next_tasks: vec![] },
        actions: vec![],
        origin_object: None,
        created_at: 0,
        status: CardStatus::Active,
        metadata: None,
    };
    let batch = s.create_batch_review_card(vec![card]);
    assert_eq!(batch.title, "Review 1 low-priority emails");
    match batch.content {
        CardContent::Orient { next_tasks } => {
            assert_eq!(next_tasks.len(), 1);
            assert_eq!(next_tasks[0].id, 44);
            assert_eq!(next_tasks[0].title, "Old mail");
            assert_eq!(next_tasks[0].urgency_score, 200);
        }
        _ => panic!("expected an orient payload"),
    }
}
