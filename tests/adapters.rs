use efl_core::card::{Altitude, BreakInUrgency, CardAction, CardContent, CardStatus, CardType};
use efl_core::service::{kind_name, state_name, ActionOutcome, CardError, CardService};
use efl_core::slack::{ch_or, dm_urgency, subtle_eq, verify_signature, MCPSlackConnector, SlackConnector};
use hmac::Mac;

fn sign(secret: &str, ts: &str, body: &str) -> String {
    let mut mac = hmac::Hmac::<sha2::Sha256>::new_from_slice(secret.as_bytes()).unwrap();
    mac.update(format!("v0:{}:{}", ts, body).as_bytes());
    format!("v0={}", hex::encode(mac.finalize().into_bytes()))
}

#[test]
fn signature_round_trip() {
    let sig = sign("s3cret", "1531420618", "token=abc");
    assert!(verify_signature("s3cret", "1531420618", "token=abc", &sig));
    assert!(!verify_signature("other", "1531420618", "token=abc", &sig));
    assert!(!verify_signature("s3cret", "1531420619", "token=abc", &sig));
    assert!(!verify_signature("s3cret", "", "token=abc", &sig));
    assert!(!verify_signature("s3cret", "1531420618", "token=abc", ""));
}

#[test]
fn signature_known_vector() {
    // HMAC-SHA256 with key "key" over "v0:1:x"
    let mut mac = hmac::Hmac::<sha2::Sha256>::new_from_slice(b"key").unwrap();
    mac.update(b"v0:1:x");
    let hex = hex::encode(mac.finalize().into_bytes());
    assert_eq!(hex.len(), 64);
    assert!(verify_signature("key", "1", "x", &format!("v0={}", hex)));
    assert!(!verify_signature("key", "1", "x", &format!("v0={}", hex.to_uppercase())));
}

#[test]
fn subtle_eq_compares_bytes() {
    assert!(subtle_eq("abc", "abc"));
    assert!(!subtle_eq("abc", "abd"));
    assert!(!subtle_eq("abc", "abcd"));
    assert!(subtle_eq("", ""));
}

#[test]
fn dm_urgency_words() {
    assert_eq!(dm_urgency("Need this NOW"), BreakInUrgency::High);
    assert_eq!(dm_urgency("Urgent: server down"), BreakInUrgency::High);
    assert_eq!(dm_urgency("see you later"), BreakInUrgency::Medium);
    assert_eq!(ch_or("slack:dm", Some("C1")), "C1");
    assert_eq!(ch_or("slack:dm", None), "slack:dm");
}

#[test]
fn mcp_connector_drafts_without_sending() {
    let c = MCPSlackConnector::new();
    assert_eq!(c.draft_message("C1", "hello").unwrap(), "Draft: hello");
    assert!(c.read_dms().unwrap().is_empty());
    assert!(c.read_channel("C1").unwrap().is_empty());
}

#[test]
fn create_card_checks_kind_and_payload() {
    let service = CardService::new();
    let content = CardContent::Orient { next_tasks: vec![] };
    let card = service.create_card("orient", None, content).unwrap();
    assert_eq!(card.card_type, CardType::Orient);
    assert_eq!(card.altitude, Altitude::Orient);
    assert_eq!(card.title, "New Card");
    assert_eq!(card.status, CardStatus::Active);
    assert_eq!(card.actions, vec![CardAction::Commit, CardAction::Undo, CardAction::Park]);
    let bad = service.create_card("ship", None, CardContent::Orient { next_tasks: vec![] });
    assert_eq!(bad.err(), Some(CardError::InvalidInput));
    let unknown = service.create_card("batch_review", None, CardContent::Orient { next_tasks: vec![] });
    assert_eq!(unknown.err(), Some(CardError::InvalidInput));
}

#[test]
fn actions_and_parked_listing() {
    let service = CardService::new();
    assert_eq!(service.perform_action(1, CardAction::Commit), ActionOutcome::Committed);
    assert_eq!(service.perform_action(1, CardAction::Undo), ActionOutcome::Undone);
    assert_eq!(service.perform_action(1, CardAction::ShowDiff), ActionOutcome::DiffShown);
    assert_eq!(service.perform_action(1, CardAction::Park), ActionOutcome::Processed);
    let item = service.park_card(5, 1000, None);
    assert_eq!(item.title, "Parked task");
    assert_eq!(item.origin_card_id, 5);
    assert_eq!(item.altitude, Altitude::Do);
    let item = service.park_card(5, 1000, Some("after lunch".to_string()));
    assert_eq!(item.title, "after lunch");
}

use efl_core::slack::{extract_uuid_from_text, slack_signals, thread_key, webhook_reply, SlackEvent, SlackSignal, WebhookReply};

fn dm(text: &str) -> SlackEvent {
    SlackEvent {
        event_type: "message".to_string(),
        channel: Some("D42".to_string()),
        channel_type: Some("im".to_string()),
        user: Some("U7".to_string()),
        text: Some(text.to_string()),
        ts: Some("1700000000.1".to_string()),
        thread_ts: None,
    }
}

#[test]
fn finds_uuid_in_text() {
    assert_eq!(
        extract_uuid_from_text("wake card:123e4567-e89b-12d3-a456-426614174000 please").as_deref(),
        Some("123e4567-e89b-12d3-a456-426614174000")
    );
    assert_eq!(extract_uuid_from_text("no id here"), None);
}

#[test]
fn direct_message_signals() {
    let ev = dm("URGENT card:123e4567-e89b-12d3-a456-426614174000");
    assert_eq!(thread_key(&ev), Some(("D42".to_string(), "1700000000.1".to_string())));
    let signals = slack_signals(&ev, Some("card-9".to_string()));
    assert_eq!(signals.len(), 3);
    assert!(matches!(&signals[0], SlackSignal::WakeFire { card_id } if card_id == "card-9"));
    match &signals[1] {
        SlackSignal::BreakIn { ts, source, message, sender, urgency } => {
            assert_eq!(ts, "1700000000.1");
            assert_eq!(source, "D42");
            assert_eq!(message, "URGENT card:123e4567-e89b-12d3-a456-426614174000");
            assert_eq!(sender, "U7");
            assert_eq!(*urgency, BreakInUrgency::High);
        }
        _ => panic!("expected a break-in"),
    }
    assert!(matches!(&signals[2], SlackSignal::WakeFire { card_id } if card_id == "123e4567-e89b-12d3-a456-426614174000"));
}

#[test]
fn channel_message_without_mapping_signals_nothing() {
    let mut ev = dm("hello");
    ev.channel_type = Some("channel".to_string());
    assert!(slack_signals(&ev, None).is_empty());
    ev.event_type = "reaction_added".to_string();
    assert!(slack_signals(&ev, Some("x".to_string())).is_empty());
    assert_eq!(thread_key(&ev), None);
}

#[test]
fn store_names() {
    assert_eq!(kind_name(CardType::BreakIn), "BreakIn");
    assert_eq!(kind_name(CardType::DoNow), "DoNow");
    assert_eq!(state_name(CardStatus::Cancelled), "Cancelled");
    assert_eq!(state_name(CardStatus::Active), "Active");
}

#[test]
fn webhook_gating() {
    let sig = sign("s3cret", "17", "body");
    assert!(matches!(webhook_reply(None, None, "17", "body", &sig), WebhookReply::Unavailable));
    assert!(matches!(webhook_reply(Some("s3cret"), Some("abc".to_string()), "", "", ""), WebhookReply::Challenge(c) if c == "abc"));
    assert!(matches!(webhook_reply(Some("s3cret"), None, "17", "body", &sig), WebhookReply::Accepted));
    assert!(matches!(webhook_reply(Some("s3cret"), None, "17", "other", &sig), WebhookReply::Unauthorized));
    assert!(matches!(webhook_reply(Some("dev-skip"), None, "", "", ""), WebhookReply::Accepted));
}

#[test]
fn uuid_must_have_the_full_shape() {
    assert_eq!(extract_uuid_from_text("123e4567-e89b-12d3-a456-42661417400"), None);
    assert_eq!(
        extract_uuid_from_text("x 123e4567-e89b-12d3-a456-42661417400g AAAAAAAA-BBBB-CCCC-DDDD-EEEEEEEEEEEE").as_deref(),
        Some("AAAAAAAA-BBBB-CCCC-DDDD-EEEEEEEEEEEE")
    );
}
