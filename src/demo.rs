//! Sample cards, one of each kind, for demonstrations and first runs.

use vstd::prelude::*;
use crate::altimeter::{green_count, has_conflict};
use crate::card::{
    Altitude, AmplifySuggestion, BreakInUrgency, Card, CardAction, CardContent, CardStatus, CardType, ChipStatus,
    Diff, DiffOpType, DiffOperation, DoDChip, Draft, DraftType, Intent, IntentType, NextTask, OriginObject,
};
use crate::ids::{fresh_id, now_seconds};
use crate::parking::{ParkedItem, ParkingService};

verus! {

pub fn generate_mock_do_now_card() -> (r: Card)
    ensures
        r.well_formed(),
        r.card_type == CardType::DoNow,
        r.altitude == Altitude::Do,
        r.status == CardStatus::Active,
        r.title@ == "Simplify Executive Summary"@,
        r.actions@ == seq![CardAction::Commit, CardAction::Undo, CardAction::Park],
        r.content matches CardContent::DoNow { diff: Some(_), .. },
{
    let after = "The Executive Function Layer uses AI to help users make decisions faster by surfacing the right actions at the right time.";
    let intent = Intent {
        id: fresh_id(),
        name: String::from_str("Simplify Technical Overview"),
        description: String::from_str("Reduce jargon and improve readability for stakeholders"),
        intent_type: IntentType::Transform,
        rationale: String::from_str("Analysis detected 14 technical acronyms without definitions, reducing comprehension for non-technical stakeholders"),
        preconditions: vec![String::from_str("audience.includes('executives')")],
        estimated_tokens: 650,
        created_at: now_seconds(),
    };
    let diff = Diff {
        before: String::from_str("The EFL system leverages MCP connectors with bidirectional IPC channels to facilitate OODA loop iterations through context-aware LLM orchestration..."),
        after: String::from_str(after),
        operations: vec![DiffOperation {
            op_type: DiffOpType::Replace,
            range_start: 0,
            range_end: 142,
            content: Some(String::from_str(after)),
        }],
    };
    let actions = vec![CardAction::Commit, CardAction::Undo, CardAction::Park];
    assert(actions@ =~= seq![CardAction::Commit, CardAction::Undo, CardAction::Park]);
    Card {
        id: fresh_id(),
        card_type: CardType::DoNow,
        altitude: Altitude::Do,
        title: String::from_str("Simplify Executive Summary"),
        content: CardContent::DoNow {
            intent,
            preview: String::from_str("The Executive Function Layer uses AI to help users make decisions faster by surfacing the right actions at the right time. It watches your workflow, understands context, and suggests next steps."),
            diff: Some(diff),
        },
        actions,
        origin_object: Some(OriginObject {
            doc_id: String::from_str("prd_milestone_a_v3"),
            block_id: Some(String::from_str("executive_summary")),
        }),
        created_at: now_seconds(),
        status: CardStatus::Active,
        metadata: None,
    }
}

fn chip(id: &str, label: &str, status: ChipStatus, fix: Option<&str>) -> (r: DoDChip)
    ensures
        r.status == status,
        r.id@ == id@,
        r.label@ == label@,
{
    DoDChip {
        id: String::from_str(id),
        label: String::from_str(label),
        status,
        fix_suggestion: match fix {
            Some(f) => Some(String::from_str(f)),
            None => None,
        },
    }
}

/// A ship card with two of its four checks green.
pub fn generate_mock_ship_card() -> (r: Card)
    ensures
        r.well_formed(),
        r.card_type == CardType::Ship,
        r.altitude == Altitude::Ship,
        r.status == CardStatus::Active,
        r.title@ == "Milestone A Spec - 50% Complete"@,
        match r.content {
            CardContent::Ship { dod_chips, version_tag } => {
                &&& dod_chips@.len() == 4
                &&& green_count(dod_chips@) == 2
                &&& dod_chips@[0].id@ == "chip_1"@ && dod_chips@[0].status == ChipStatus::Green
                &&& dod_chips@[1].id@ == "chip_2"@ && dod_chips@[1].status == ChipStatus::Green
                &&& dod_chips@[2].id@ == "chip_3"@ && dod_chips@[2].status == ChipStatus::Red
                &&& dod_chips@[3].id@ == "chip_4"@ && dod_chips@[3].status == ChipStatus::Red
                &&& version_tag@ == "v0.3-draft"@
            },
            _ => false,
        },
        r.actions@ == seq![CardAction::Commit],
{
    let dod_chips = vec![
        chip("chip_1", "Executive summary under 200 words", ChipStatus::Green, None),
        chip("chip_2", "Success metrics defined", ChipStatus::Green, None),
        chip("chip_3", "Technical diagrams included", ChipStatus::Red,
            Some("Add architecture diagram showing data flow between components")),
        chip("chip_4", "Stakeholder sign-offs documented", ChipStatus::Red,
            Some("Need approval from Security and Platform teams")),
    ];
    proof {
        let s = dod_chips@;
        assert(s.drop_last().drop_last().drop_last().drop_last() =~= Seq::<DoDChip>::empty());
        assert(green_count(s) == 2) by {
            reveal_with_fuel(green_count, 5);
        }
    }
    let actions = vec![CardAction::Commit];
    assert(actions@ =~= seq![CardAction::Commit]);
    Card {
        id: fresh_id(),
        card_type: CardType::Ship,
        altitude: Altitude::Ship,
        title: String::from_str("Milestone A Spec - 50% Complete"),
        content: CardContent::Ship { dod_chips, version_tag: String::from_str("v0.3-draft") },
        actions,
        origin_object: Some(OriginObject { doc_id: String::from_str("prd_milestone_a_v3"), block_id: None }),
        created_at: now_seconds(),
        status: CardStatus::Active,
        metadata: None,
    }
}

fn suggestion(target: &str, action: &str, rationale: &str) -> AmplifySuggestion {
    AmplifySuggestion {
        target: String::from_str(target),
        action: String::from_str(action),
        rationale: String::from_str(rationale),
    }
}

/// An amplify card with three audiences and two drafts.
pub fn generate_mock_amplify_card() -> (r: Card)
    ensures
        r.well_formed(),
        r.card_type == CardType::Amplify,
        r.altitude == Altitude::Amplify,
        r.status == CardStatus::Active,
        r.title@ == "Share Progress with Stakeholders"@,
        match r.content {
            CardContent::Amplify { suggestions, drafts } => suggestions@.len() == 3 && drafts@.len() == 2,
            _ => false,
        },
        r.actions@ == seq![CardAction::GenerateDraft],
{
    let suggestions = vec![
        suggestion("#product-engineering", "Share milestone progress update",
            "Team hasn't received update in 5 days, sprint planning is tomorrow"),
        suggestion("alex@company.com (VP Engineering)", "Send executive briefing",
            "Requested weekly updates on AI initiatives, last update was 8 days ago"),
        suggestion("Design System Team", "Schedule design review",
            "UI components need review before implementation starts next week"),
    ];
    let drafts = vec![
        Draft {
            id: fresh_id(),
            draft_type: DraftType::SlackMessage,
            recipient: String::from_str("#product-engineering"),
            content: String::from_str("\u{1F4CA} Milestone A Update:\n\n\u{2705} Executive summary simplified (14 \u{2192} 0 undefined acronyms)\n\u{2705} Success metrics defined\n\u{1F6A7} Architecture diagrams in progress\n\u{23F3} Awaiting Security & Platform approvals\n\nOn track for Friday deadline. Demo prep starting tomorrow."),
        },
        Draft {
            id: fresh_id(),
            draft_type: DraftType::EmailDraft,
            recipient: String::from_str("alex@company.com"),
            content: String::from_str("Subject: AI Initiative Update - Week 34\n\nHi Alex,\n\nQuick update on the Executive Function Layer project:\n\n\u{2022} Milestone A spec is 50% complete\n\u{2022} Simplified technical documentation for stakeholder review\n\u{2022} Demo scheduled for Friday 2pm (CEO confirmed attending)\n\u{2022} Need Security and Platform sign-offs by EOD Wednesday\n\nKey risk: Architecture diagrams needed before implementation can begin.\n\nLet me know if you need any clarification.\n\nBest,\n[Your name]"),
        },
    ];
    let actions = vec![CardAction::GenerateDraft];
    assert(actions@ =~= seq![CardAction::GenerateDraft]);
    Card {
        id: fresh_id(),
        card_type: CardType::Amplify,
        altitude: Altitude::Amplify,
        title: String::from_str("Share Progress with Stakeholders"),
        content: CardContent::Amplify { suggestions, drafts },
        actions,
        origin_object: None,
        created_at: now_seconds(),
        status: CardStatus::Active,
        metadata: None,
    }
}

fn task(title: &str, rationale: &str, urgency: u16, impact: u16) -> (r: NextTask)
    ensures
        r.urgency_score == urgency,
        r.impact_score == impact,
{
    NextTask {
        id: fresh_id(),
        title: String::from_str(title),
        rationale: String::from_str(rationale),
        urgency_score: urgency,
        impact_score: impact,
    }
}

/// An orient card whose ranked tasks include urgent ones.
pub fn generate_mock_orient_card() -> (r: Card)
    ensures
        r.well_formed(),
        r.card_type == CardType::Orient,
        r.altitude == Altitude::Orient,
        r.status == CardStatus::Active,
        r.title@ == "Critical Path: Architecture Diagram"@,
        match r.content {
            CardContent::Orient { next_tasks } => next_tasks@.len() == 4 && has_conflict(next_tasks@),
            _ => false,
        },
{
    let next_tasks = vec![
        task("Create architecture diagram",
            "Blocking implementation team, required for security review, 2 hours estimated", 900, 950),
        task("Prepare Friday demo script",
            "CEO attending, make-or-break for Q1 funding, need rehearsal time", 850, 1000),
        task("Review PR #472", "Sarah's message: blocking release, deployment window closes at 5pm", 950, 700),
        task("Update test coverage", "Currently at 72%, need 80% for merge requirements", 300, 400),
    ];
    assert(next_tasks@[0].urgency_score > 700);
    Card {
        id: fresh_id(),
        card_type: CardType::Orient,
        altitude: Altitude::Orient,
        title: String::from_str("Critical Path: Architecture Diagram"),
        content: CardContent::Orient { next_tasks },
        actions: vec![CardAction::Open],
        origin_object: None,
        created_at: now_seconds(),
        status: CardStatus::Active,
        metadata: None,
    }
}

/// A card parked for two hours, in the parked form, pointing at `original_card_id`.
pub fn generate_mock_parked_card(original_card_id: u128) -> (r: Card)
    ensures
        r.well_formed(),
        r.card_type == CardType::Parked,
        r.status == CardStatus::Parked,
        r.altitude == Altitude::Do,
        match r.content {
            CardContent::Parked { original_card_id: o, wake_reason, .. } => o == original_card_id
                && wake_reason@ == "Waiting for Security team's OAuth2 implementation guidelines"@,
            _ => false,
        },
{
    let now = now_seconds();
    let wake_time = if now <= i64::MAX - 7200 { now + 7200 } else { i64::MAX };
    Card {
        id: fresh_id(),
        card_type: CardType::Parked,
        altitude: Altitude::Do,
        title: String::from_str("Parked: Refactor Authentication Module"),
        content: CardContent::Parked {
            original_card_id,
            wake_time,
            wake_reason: String::from_str("Waiting for Security team's OAuth2 implementation guidelines"),
        },
        actions: vec![CardAction::Resume],
        origin_object: None,
        created_at: now,
        status: CardStatus::Parked,
        metadata: None,
    }
}

pub fn generate_mock_breakin_card() -> (r: Card)
    ensures
        r.well_formed(),
        r.card_type == CardType::BreakIn,
        r.altitude == Altitude::Do,
        r.status == CardStatus::Active,
        r.content matches CardContent::BreakIn { urgency: BreakInUrgency::High, .. },
        r.actions@ == seq![CardAction::RespondNow, CardAction::RespondAtBreak, CardAction::Park],
{
    let actions = vec![CardAction::RespondNow, CardAction::RespondAtBreak, CardAction::Park];
    assert(actions@ =~= seq![CardAction::RespondNow, CardAction::RespondAtBreak, CardAction::Park]);
    Card {
        id: fresh_id(),
        card_type: CardType::BreakIn,
        altitude: Altitude::Do,
        title: String::from_str("\u{1F534} Production Alert"),
        content: CardContent::BreakIn {
            source: String::from_str("PagerDuty"),
            message: String::from_str("High memory usage detected on api-prod-west-2. Current: 94%. Threshold: 90%. Auto-scaling triggered but may need manual intervention if it continues climbing."),
            sender: String::from_str("monitoring@company.com"),
            urgency: BreakInUrgency::High,
        },
        actions,
        origin_object: None,
        created_at: now_seconds(),
        status: CardStatus::Active,
        metadata: None,
    }
}

/// What the demonstration feed shows.
#[derive(Clone, Debug)]
pub struct DemoFeed {
    pub cards: Vec<Card>,
    pub current_altitude: Altitude,
    pub parked_count: usize,
    pub parked_items: Vec<ParkedItem>,
}

fn shifted(now: i64, seconds: i64) -> (r: i64)
    ensures
        i64::MIN <= now + seconds <= i64::MAX ==> r == now + seconds,
{
    if seconds >= 0 {
        if now <= i64::MAX - seconds { now + seconds } else { i64::MAX }
    } else {
        if now >= i64::MIN - seconds { now + seconds } else { i64::MIN }
    }
}

/// Parks a sample do-now card for fifteen minutes and a sample ship card
/// that is five minutes overdue, then shows one sample card of each active
/// kind with the parked listing.
pub fn get_demo_feed(parking: &mut ParkingService) -> (r: DemoFeed)
    requires
        old(parking).wf(),
    ensures
        final(parking).wf(),
        final(parking)@.len() <= old(parking)@.len() + 2,
        r.cards@.len() == 5,
        r.cards@[0].card_type == CardType::DoNow,
        r.cards@[1].card_type == CardType::Ship,
        r.cards@[2].card_type == CardType::Amplify,
        r.cards@[3].card_type == CardType::Orient,
        r.cards@[4].card_type == CardType::BreakIn,
        r.current_altitude == Altitude::Do,
        r.parked_count == final(parking)@.len(),
        r.parked_items@.len() == final(parking)@.len(),
{
    let now = now_seconds();
    let first = generate_mock_do_now_card();
    let second = generate_mock_ship_card();
    parking.park_card(first, shifted(now, 900), String::from_str("Waiting for API review"));
    parking.park_card(second, shifted(now, -300), String::from_str("Ready to continue after meeting"));
    let cards = vec![
        generate_mock_do_now_card(),
        generate_mock_ship_card(),
        generate_mock_amplify_card(),
        generate_mock_orient_card(),
        generate_mock_breakin_card(),
    ];
    let parked_items = parking.get_parked_items();
    DemoFeed { parked_count: parked_items.len(), cards, current_altitude: Altitude::Do, parked_items }
}

} // verus!
