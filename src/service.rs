//! Card creation and the administrative actions on cards.

use vstd::prelude::*;
use crate::card::{Altitude, Card, CardAction, CardContent, CardStatus, CardType};
use crate::ids::{fresh_id, now_seconds};
use crate::parking::{ParkedItem, WakeCondition};
use crate::text::same_text;

verus! {

#[derive(Clone, Copy, Debug, PartialEq, Eq, Structural)]
pub enum CardError {
    /// An unknown card kind, or a payload that does not belong to the kind.
    InvalidInput,
}

/// What performing an action reports.
#[derive(Clone, Copy, Debug, PartialEq, Eq, Structural)]
pub enum ActionOutcome {
    Committed,
    Undone,
    DiffShown,
    Processed,
}

/// The card type named by a kind string; `batch_review` cards come only
/// from the mail triage.
pub open spec fn card_type_named(s: Seq<char>) -> Option<CardType> {
    if s == "do_now"@ {
        Some(CardType::DoNow)
    } else if s == "ship"@ {
        Some(CardType::Ship)
    } else if s == "amplify"@ {
        Some(CardType::Amplify)
    } else if s == "orient"@ {
        Some(CardType::Orient)
    } else if s == "parked"@ {
        Some(CardType::Parked)
    } else if s == "break_in"@ {
        Some(CardType::BreakIn)
    } else {
        None
    }
}

/// The altitude a new card of type `t` starts at.
pub open spec fn altitude_of_type(t: CardType) -> Altitude {
    match t {
        CardType::Ship => Altitude::Ship,
        CardType::Amplify => Altitude::Amplify,
        CardType::Orient => Altitude::Orient,
        _ => Altitude::Do,
    }
}

pub fn parse_card_type(s: &str) -> (r: Option<CardType>)
    ensures
        r == card_type_named(s@),
{
    if same_text(s, "do_now") {
        Some(CardType::DoNow)
    } else if same_text(s, "ship") {
        Some(CardType::Ship)
    } else if same_text(s, "amplify") {
        Some(CardType::Amplify)
    } else if same_text(s, "orient") {
        Some(CardType::Orient)
    } else if same_text(s, "parked") {
        Some(CardType::Parked)
    } else if same_text(s, "break_in") {
        Some(CardType::BreakIn)
    } else {
        None
    }
}

pub open spec fn kind_name_of(t: CardType) -> Seq<char> {
    match t {
        CardType::DoNow => "DoNow"@,
        CardType::Ship => "Ship"@,
        CardType::Amplify => "Amplify"@,
        CardType::Orient => "Orient"@,
        CardType::Parked => "Parked"@,
        CardType::BreakIn => "BreakIn"@,
        CardType::BatchReview => "BatchReview"@,
    }
}

pub open spec fn state_name_of(s: CardStatus) -> Seq<char> {
    match s {
        CardStatus::Active => "Active"@,
        CardStatus::Pending => "Pending"@,
        CardStatus::Completed => "Completed"@,
        CardStatus::Parked => "Parked"@,
        CardStatus::Cancelled => "Cancelled"@,
    }
}

/// The kind under which a card is saved to the store.
pub fn kind_name(t: CardType) -> (r: &'static str)
    ensures
        r@ == kind_name_of(t),
{
    match t {
        CardType::DoNow => "DoNow",
        CardType::Ship => "Ship",
        CardType::Amplify => "Amplify",
        CardType::Orient => "Orient",
        CardType::Parked => "Parked",
        CardType::BreakIn => "BreakIn",
        CardType::BatchReview => "BatchReview",
    }
}

/// The state under which a card is saved to the store.
pub fn state_name(s: CardStatus) -> (r: &'static str)
    ensures
        r@ == state_name_of(s),
{
    match s {
        CardStatus::Active => "Active",
        CardStatus::Pending => "Pending",
        CardStatus::Completed => "Completed",
        CardStatus::Parked => "Parked",
        CardStatus::Cancelled => "Cancelled",
    }
}

/// Creates cards and answers the actions performed on them.
pub struct CardService {}

impl CardService {
    pub fn new() -> CardService {
        CardService {}
    }

    /// An active card of the named kind with `content`, with a fresh id and
    /// the current time. An unknown kind, or a payload of another kind, is
    /// rejected.
    pub fn create_card(&self, card_type: &str, intent_id: Option<u128>, content: CardContent) -> (r: Result<Card, CardError>)
        ensures
            match card_type_named(card_type@) {
                Some(t) if content.kind_of() == t => match r {
                    Ok(card) => {
                        &&& card.card_type == t
                        &&& card.altitude == altitude_of_type(t)
                        &&& card.title@ == "New Card"@
                        &&& card.content == content
                        &&& card.actions@ == seq![CardAction::Commit, CardAction::Undo, CardAction::Park]
                        &&& card.origin_object is None
                        &&& card.status == CardStatus::Active
                        &&& card.metadata is None
                        &&& card.well_formed()
                    },
                    Err(_) => false,
                },
                _ => r == Err::<Card, CardError>(CardError::InvalidInput),
            },
    {
        let t = match parse_card_type(card_type) {
            Some(t) => t,
            None => {
                return Err(CardError::InvalidInput);
            },
        };
        if content.kind() != t {
            return Err(CardError::InvalidInput);
        }
        let altitude = match t {
            CardType::Ship => Altitude::Ship,
            CardType::Amplify => Altitude::Amplify,
            CardType::Orient => Altitude::Orient,
            _ => Altitude::Do,
        };
        let actions = vec![CardAction::Commit, CardAction::Undo, CardAction::Park];
        assert(actions@ =~= seq![CardAction::Commit, CardAction::Undo, CardAction::Park]);
        Ok(Card {
            id: fresh_id(),
            card_type: t,
            altitude,
            title: String::from_str("New Card"),
            content,
            actions,
            origin_object: None,
            created_at: now_seconds(),
            status: CardStatus::Active,
            metadata: None,
        })
    }

    /// What performing `action` on a card reports.
    pub fn perform_action(&self, card_id: u128, action: CardAction) -> (r: ActionOutcome)
        ensures
            r == match action {
                CardAction::Commit => ActionOutcome::Committed,
                CardAction::Undo => ActionOutcome::Undone,
                CardAction::ShowDiff => ActionOutcome::DiffShown,
                _ => ActionOutcome::Processed,
            },
    {
        match action {
            CardAction::Commit => ActionOutcome::Committed,
            CardAction::Undo => ActionOutcome::Undone,
            CardAction::ShowDiff => ActionOutcome::DiffShown,
            _ => ActionOutcome::Processed,
        }
    }

    /// A listing for a card parked until `wake_time`, under a fresh id; the
    /// reason is its title, "Parked task" where none is given.
    pub fn park_card(&self, card_id: u128, wake_time: i64, reason: Option<String>) -> (r: ParkedItem)
        ensures
            r.title@ == match reason {
                Some(s) => s@,
                None => "Parked task"@,
            },
            r.wake_time == wake_time,
            r.altitude == Altitude::Do,
            r.origin_card_id == card_id,
            r.context is None,
            r.wake_conditions@ == seq![WakeCondition::Time(wake_time)],
    {
        let title = match reason {
            Some(s) => s,
            None => String::from_str("Parked task"),
        };
        let wake_conditions = vec![WakeCondition::Time(wake_time)];
        ParkedItem {
            id: fresh_id(),
            title,
            wake_time,
            altitude: Altitude::Do,
            origin_card_id: card_id,
            context: None,
            wake_conditions,
        }
    }
}

} // verus!
