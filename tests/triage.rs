use efl_core::card::{Altitude, CardAction, CardContent, CardType};
use efl_core::mail::{EmailCategory, GmailCardService, GmailMessage};

fn msg(id: &str, snippet: &str, subject: &str, sender: &str) -> GmailMessage {
    GmailMessage {
        id: id.to_string(),
        thread_id: format!("t-{}", id),
        snippet: snippet.to_string(),
        subject: subject.to_string(),
        sender: sender.to_string(),
        date: String::new(),
    }
}

#[test]
fn categorizes_by_snippet_in_any_case() {
    let s = GmailCardService::new();
    assert_eq!(s.categorize_email(&msg("1", "Click to UNSUBSCRIBE", "", "")), EmailCategory::Newsletter);
    assert_eq!(s.categorize_email(&msg("1", "Automated alert", "", "")), EmailCategory::Notification);
    assert_eq!(s.categorize_email(&msg("1", "Can I get a Demo slot", "", "")), EmailCategory::Sales);
    assert_eq!(s.categorize_email(&msg("1", "Could you review this", "", "")), EmailCategory::Personal);
    assert_eq!(s.categorize_email(&msg("1", "Lunch tomorrow", "", "")), EmailCategory::Notification);
}

#[test]
fn detects_unsubscribe_and_warm_leads() {
    let s = GmailCardService::new();
    assert!(s.detect_unsubscribe_link(&msg("1", "Manage Preferences here", "", "")));
    assert!(!s.detect_unsubscribe_link(&msg("1", "hello", "", "")));
    assert!(s.is_relevant_sales(&msg("1", "As Discussed, the quote", "", "")));
    assert!(!s.is_relevant_sales(&msg("1", "I noticed you use our rival", "", "")));
}

#[test]
fn card_type_follows_category() {
    let s = GmailCardService::new();
    let m = msg("1", "URGENT please reply", "", "");
    assert_eq!(s.determine_card_type(&m, &EmailCategory::Personal), (CardType::BreakIn, Altitude::Do));
    assert_eq!(s.determine_card_type(&msg("1", "hi", "", ""), &EmailCategory::Personal), (CardType::DoNow, Altitude::Do));
    assert_eq!(s.determine_card_type(&m, &EmailCategory::Sales), (CardType::Ship, Altitude::Ship));
    assert_eq!(s.determine_card_type(&m, &EmailCategory::Spam), (CardType::Orient, Altitude::Orient));
}

#[test]
fn sender_name_forms() {
    let s = GmailCardService::new();
    assert_eq!(s.extract_sender_name(&msg("1", "", "", "  Alice Smith  <alice@example.com>")), "Alice Smith");
    assert_eq!(s.extract_sender_name(&msg("1", "", "", "bob@example.com")), "bob");
    assert_eq!(s.extract_sender_name(&msg("1", "", "", "carol")), "carol");
    assert_eq!(s.extract_sender_name(&msg("1", "", "", "")), "Unknown Sender");
}

#[test]
fn title_prefers_subject_then_cut_snippet() {
    let s = GmailCardService::new();
    let c = EmailCategory::Personal;
    assert_eq!(s.extract_title(&msg("1", "snippet", "Subject line", ""), &c), "Subject line");
    assert_eq!(s.extract_title(&msg("1", "short snippet", "", ""), &c), "short snippet");
    let long = "a".repeat(80);
    assert_eq!(s.extract_title(&msg("1", &long, "", ""), &c), format!("{}...", "a".repeat(74)));
    let exactly = "b".repeat(77);
    assert_eq!(s.extract_title(&msg("1", &exactly, "", ""), &c), exactly);
    let accented = format!("{}{}", "a".repeat(73), "é".repeat(5));
    assert_eq!(s.extract_title(&msg("1", &accented, "", ""), &c), format!("{}...", "a".repeat(73)));
}

#[test]
fn reply_templates_and_reasoning() {
    let s = GmailCardService::new();
    let m = msg("1", "Can we set up a Meeting?", "", "");
    let t = s.generate_reply_templates(&m, &EmailCategory::Personal);
    assert_eq!(t[0], "I'm available for a call. What times work for you?");
    assert_eq!(t.len(), 3);
    assert_eq!(s.generate_reply_templates(&m, &EmailCategory::Spam), vec!["Acknowledged.", "Thanks for the information."]);
    assert_eq!(s.get_reasoning(&m, &EmailCategory::Personal), "Personal email with question requiring response");
    assert_eq!(s.get_reasoning(&msg("1", "Following up", "", ""), &EmailCategory::Sales), "Sales follow-up");
    assert_eq!(s.get_intent_name(&EmailCategory::Spam), "Review and delete");
    assert_eq!(
        s.determine_actions(&CardType::Ship, &EmailCategory::Sales),
        vec![CardAction::DeclineRespectfully, CardAction::GenerateDraft, CardAction::Open, CardAction::Park]
    );
}

#[test]
fn decline_template_rotates_on_id() {
    let s = GmailCardService::new();
    // "a" is 97, and 97 % 3 == 1
    let t = s.generate_decline_template(&msg("a", "", "", "Dana <d@x.io>"));
    assert!(t.starts_with("Hi Dana,\n\nI appreciate you thinking of us"));
    // "c" is 99, and 99 % 3 == 0
    let t = s.generate_decline_template(&msg("c", "", "", "Dana <d@x.io>"));
    assert!(t.starts_with("Hi Dana,\n\nThank you for reaching out."));
    // "b" is 98, and 98 % 3 == 2
    let t = s.generate_decline_template(&msg("b", "", "", "Dana <d@x.io>"));
    assert!(t.starts_with("Dear Dana,"));
    assert!(t.ends_with("Kind regards"));
}

#[test]
fn personal_mail_becomes_a_do_now_card() {
    let s = GmailCardService::new();
    let m = msg("m1", "Thanks, could you send the deck?", "Deck", "Eve <eve@x.io>");
    let card = s.convert_to_card(m, &EmailCategory::Personal);
    assert_eq!(card.card_type, CardType::DoNow);
    assert_eq!(card.title, "Deck");
    match &card.content {
        CardContent::DoNow { intent, preview, diff } => {
            assert_eq!(intent.description, "From: Eve\nSubject: Deck\n\nThanks, could you send the deck?");
            assert_eq!(intent.name, "Reply to personal email");
            assert_eq!(preview, "Thanks, could you send the deck?");
            assert!(diff.is_none());
        }
        _ => panic!("expected a do-now payload"),
    }
    let origin = card.origin_object.as_ref().unwrap();
    assert_eq!(origin.doc_id, "gmail_m1");
    assert_eq!(origin.block_id.as_deref(), Some("t-m1"));
    let md = card.metadata.as_ref().unwrap();
    assert_eq!(md.email_sender.as_deref(), Some("Eve"));
    assert_eq!(md.email_subject.as_deref(), Some("Deck"));
    assert_eq!(md.email_date, None);
    assert_eq!(md.email_category.as_deref(), Some("Personal"));
}

#[test]
fn create_intent_names_the_title() {
    let s = GmailCardService::new();
    let i = s.create_intent(&msg("1", "x", "Budget", ""), &EmailCategory::Sales);
    assert_eq!(i.description, "Handle email: Budget");
    assert_eq!(i.estimated_tokens, 100);
}

#[test]
fn triage_batches_low_priority_mail() {
    let s = GmailCardService::new();
    let messages = vec![
        msg("1", "Weekly digest - unsubscribe here", "Digest", "News <n@x.io>"),
        msg("2", "Hi there, are you free?", "Question", "Fay <fay@x.io>"),
        msg("3", "Quick chat about a demo", "", "Gil <g@x.io>"),
        msg("4", "As discussed, following up on the demo", "Quote", "Hal <h@x.io>"),
    ];
    let cards = s.cards_from_messages(messages);
    assert_eq!(cards.len(), 3);
    assert_eq!(cards[0].card_type, CardType::DoNow);
    assert_eq!(cards[1].card_type, CardType::Ship);
    let batch = &cards[2];
    assert_eq!(batch.card_type, CardType::BatchReview);
    assert_eq!(batch.title, "Batch Review: 2 Low-Priority Emails");
    match &batch.content {
        CardContent::BatchReview { emails, suggested_actions } => {
            assert_eq!(emails.len(), 2);
            assert_eq!(emails[0].category, "newsletter");
            assert!(emails[0].has_unsubscribe);
            assert_eq!(emails[1].subject, "Quick chat about a demo");
            assert_eq!(suggested_actions, &vec!["archive_all", "unsubscribe_all", "decline_all_sales", "archive_newsletters"]);
        }
        _ => panic!("expected a batch payload"),
    }
}

#[test]
fn triage_without_low_priority_mail_has_no_batch() {
    let s = GmailCardService::new();
    let cards = s.cards_from_messages(vec![msg("1", "please call me", "", "Ann")]);
    assert_eq!(cards.len(), 1);
    assert!(s.cards_from_messages(vec![]).is_empty());
}
