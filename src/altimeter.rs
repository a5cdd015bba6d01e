//! The altitude classifier: an aggregate progress snapshot over all cards and
//! the altitude it recommends.

use vstd::prelude::*;
use crate::card::{Altitude, Card, CardContent, CardType, ChipStatus, DoDChip, NextTask};
use crate::text::{decimal_chars, decimal_text, opt_chars};

verus! {

/// Score above which an orient task counts as a queue conflict (0.7, in thousandths).
pub const ORIENT_THRESHOLD: u16 = 700;

#[derive(Clone, Copy, Debug, PartialEq, Eq, Structural)]
pub struct AltimeterProgress {
    pub do_count: u8,
    pub ship_green: u8,
    pub ship_total: u8,
    pub amplify_done: u8,
    pub amplify_total: u8,
    pub orient_ok: bool,
}

impl AltimeterProgress {
    pub open spec fn initial() -> AltimeterProgress {
        AltimeterProgress {
            do_count: 0,
            ship_green: 0,
            ship_total: 0,
            amplify_done: 0,
            amplify_total: 0,
            orient_ok: true,
        }
    }

    /// The snapshot of an empty card set.
    pub fn new() -> (r: AltimeterProgress)
        ensures
            r == AltimeterProgress::initial(),
    {
        AltimeterProgress {
            do_count: 0,
            ship_green: 0,
            ship_total: 0,
            amplify_done: 0,
            amplify_total: 0,
            orient_ok: true,
        }
    }
}

/// How many checks are green.
pub open spec fn green_count(chips: Seq<DoDChip>) -> nat
    decreases chips.len(),
{
    if chips.len() == 0 {
        0
    } else {
        green_count(chips.drop_last()) + if chips.last().status == ChipStatus::Green { 1nat } else { 0nat }
    }
}

/// Some task scores above the conflict threshold in urgency or impact.
pub open spec fn has_conflict(tasks: Seq<NextTask>) -> bool {
    exists|i: int|
        0 <= i < tasks.len() && (#[trigger] tasks[i].urgency_score > ORIENT_THRESHOLD
            || tasks[i].impact_score > ORIENT_THRESHOLD)
}

/// A count, capped at 255.
pub open spec fn saturate(n: nat) -> u8 {
    if n < 255 { n as u8 } else { 255 }
}

fn saturating_u8(n: usize) -> (r: u8)
    ensures
        r == saturate(n as nat),
{
    if n < 255 { n as u8 } else { 255 }
}

/// The snapshot after one more card: a do-now card adds one to the count
/// (saturating); a ship or amplify card sets the counts of its kind, capped
/// at 255; an orient card with a task over the threshold clears the orient
/// flag for good; any other card leaves the snapshot as it is.
pub open spec fn progress_step(p: AltimeterProgress, c: Card) -> AltimeterProgress {
    match c.card_type {
        CardType::DoNow => AltimeterProgress {
            do_count: if p.do_count < 255 { (p.do_count + 1) as u8 } else { 255 },
            ..p
        },
        CardType::Ship => match c.content {
            CardContent::Ship { dod_chips, .. } => AltimeterProgress {
                ship_total: saturate(dod_chips@.len()),
                ship_green: saturate(green_count(dod_chips@)),
                ..p
            },
            _ => p,
        },
        CardType::Amplify => match c.content {
            CardContent::Amplify { suggestions, drafts } => AltimeterProgress {
                amplify_total: saturate(suggestions@.len()),
                amplify_done: saturate(drafts@.len()),
                ..p
            },
            _ => p,
        },
        CardType::Orient => match c.content {
            CardContent::Orient { next_tasks } => AltimeterProgress {
                orient_ok: p.orient_ok && !has_conflict(next_tasks@),
                ..p
            },
            _ => p,
        },
        _ => p,
    }
}

/// The snapshot of a card sequence, folded from the first card to the last.
pub open spec fn progress_of(cards: Seq<Card>) -> AltimeterProgress
    decreases cards.len(),
{
    if cards.len() == 0 {
        AltimeterProgress::initial()
    } else {
        progress_step(progress_of(cards.drop_last()), cards.last())
    }
}

/// The card is an orient card with a task over the conflict threshold.
pub open spec fn orient_conflict(c: Card) -> bool {
    c.card_type == CardType::Orient && match c.content {
        CardContent::Orient { next_tasks } => has_conflict(next_tasks@),
        _ => false,
    }
}

/// The orient flag is clear exactly when some orient card has a task over
/// the conflict threshold, wherever that card stands.
pub proof fn lemma_orient_flag(cards: Seq<Card>)
    ensures
        progress_of(cards).orient_ok == !(exists|i: int| 0 <= i < cards.len() && orient_conflict(#[trigger] cards[i])),
    decreases cards.len(),
{
    if cards.len() > 0 {
        let t = cards.drop_last();
        lemma_orient_flag(t);
        if exists|i: int| 0 <= i < t.len() && orient_conflict(#[trigger] t[i]) {
            let i = choose|i: int| 0 <= i < t.len() && orient_conflict(#[trigger] t[i]);
            assert(cards[i] == t[i]);
        }
        if exists|i: int| 0 <= i < cards.len() && orient_conflict(#[trigger] cards[i]) {
            let i = choose|i: int| 0 <= i < cards.len() && orient_conflict(#[trigger] cards[i]);
            if i < t.len() {
                assert(t[i] == cards[i]);
            }
        }
    }
}

/// The recommended altitude; the first rule that matches wins.
pub open spec fn recommended(p: AltimeterProgress) -> Altitude {
    if p.do_count >= 3 {
        Altitude::Do
    } else if p.ship_total > 0 && p.ship_green == p.ship_total {
        Altitude::Ship
    } else if p.amplify_total > p.amplify_done {
        Altitude::Amplify
    } else if !p.orient_ok {
        Altitude::Orient
    } else {
        Altitude::Do
    }
}

/// The text that explains the recommendation, where there is one.
pub open spec fn rationale_of(p: AltimeterProgress) -> Option<Seq<char>> {
    if p.do_count >= 3 {
        Some(decimal_chars(p.do_count as nat) + " focused edits available"@)
    } else if p.ship_total > 0 && p.ship_green == p.ship_total {
        Some("Ready to ship: "@ + decimal_chars(p.ship_green as nat) + "/"@
            + decimal_chars(p.ship_total as nat) + " checks green"@)
    } else if p.amplify_total > p.amplify_done {
        Some(decimal_chars((p.amplify_total - p.amplify_done) as nat) + " audiences need updates"@)
    } else if !p.orient_ok {
        Some("Queue conflicts detected; review priorities"@)
    } else {
        None
    }
}

fn count_green(chips: &Vec<DoDChip>) -> (r: usize)
    ensures
        r == green_count(chips@),
{
    let mut n: usize = 0;
    let mut i: usize = 0;
    while i < chips.len()
        invariant
            i <= chips@.len(),
            n == green_count(chips@.subrange(0, i as int)),
            n <= i,
        decreases chips@.len() - i,
    {
        assert(chips@.subrange(0, i as int + 1).drop_last() =~= chips@.subrange(0, i as int));
        if chips[i].status == ChipStatus::Green {
            n = n + 1;
        }
        i = i + 1;
    }
    assert(chips@.subrange(0, chips@.len() as int) =~= chips@);
    n
}

fn any_conflict(tasks: &Vec<NextTask>) -> (r: bool)
    ensures
        r == has_conflict(tasks@),
{
    let mut i: usize = 0;
    while i < tasks.len()
        invariant
            i <= tasks@.len(),
            forall|j: int| 0 <= j < i ==> !(#[trigger] tasks@[j].urgency_score > ORIENT_THRESHOLD
                || tasks@[j].impact_score > ORIENT_THRESHOLD),
        decreases tasks@.len() - i,
    {
        if tasks[i].urgency_score > ORIENT_THRESHOLD || tasks[i].impact_score > ORIENT_THRESHOLD {
            return true;
        }
        i = i + 1;
    }
    false
}

/// One pass over the cards, in order, folding each into the snapshot.
pub fn calculate_progress(cards: &Vec<Card>) -> (r: AltimeterProgress)
    ensures
        r == progress_of(cards@),
{
    let mut progress = AltimeterProgress::new();
    let mut i: usize = 0;
    while i < cards.len()
        invariant
            i <= cards@.len(),
            progress == progress_of(cards@.subrange(0, i as int)),
        decreases cards@.len() - i,
    {
        let card = &cards[i];
        assert(cards@.subrange(0, i as int + 1).drop_last() =~= cards@.subrange(0, i as int));
        match card.card_type {
            CardType::DoNow => {
                if progress.do_count < 255 {
                    progress.do_count = progress.do_count + 1;
                }
            },
            CardType::Ship => {
                if let CardContent::Ship { dod_chips, .. } = &card.content {
                    progress.ship_total = saturating_u8(dod_chips.len());
                    progress.ship_green = saturating_u8(count_green(dod_chips));
                }
            },
            CardType::Amplify => {
                if let CardContent::Amplify { suggestions, drafts } = &card.content {
                    progress.amplify_total = saturating_u8(suggestions.len());
                    progress.amplify_done = saturating_u8(drafts.len());
                }
            },
            CardType::Orient => {
                if let CardContent::Orient { next_tasks } = &card.content {
                    progress.orient_ok = progress.orient_ok && !any_conflict(next_tasks);
                }
            },
            _ => {},
        }
        i = i + 1;
    }
    assert(cards@.subrange(0, cards@.len() as int) =~= cards@);
    progress
}

/// The altitude that the snapshot calls for, with its rationale.
pub fn recommend_altitude(progress: &AltimeterProgress) -> (r: (Altitude, Option<String>))
    ensures
        r.0 == recommended(*progress),
        opt_chars(r.1) == rationale_of(*progress),
{
    if progress.do_count >= 3 {
        let mut s = decimal_text(progress.do_count as u64);
        s.append(" focused edits available");
        (Altitude::Do, Some(s))
    } else if progress.ship_total > 0 && progress.ship_green == progress.ship_total {
        let mut s = String::from_str("Ready to ship: ");
        let green = decimal_text(progress.ship_green as u64);
        s.append(green.as_str());
        s.append("/");
        let total = decimal_text(progress.ship_total as u64);
        s.append(total.as_str());
        s.append(" checks green");
        (Altitude::Ship, Some(s))
    } else if progress.amplify_total > progress.amplify_done {
        let mut s = decimal_text((progress.amplify_total - progress.amplify_done) as u64);
        s.append(" audiences need updates");
        (Altitude::Amplify, Some(s))
    } else if !progress.orient_ok {
        (Altitude::Orient, Some(String::from_str("Queue conflicts detected; review priorities")))
    } else {
        (Altitude::Do, None)
    }
}

/// The steps between altitudes.
#[derive(Clone, Copy, Debug, PartialEq, Eq, Structural)]
pub enum GateType {
    DoToShip,
    ShipToAmplify,
    AmplifyToOrient,
    OrientToDo,
}

/// A progress report with the altitude it recommends.
#[derive(Clone, Debug)]
pub struct AltimeterEvent {
    pub kind: String,
    pub system_altitude: String,
    pub progress: AltimeterProgress,
    pub rationale: Option<String>,
}

pub open spec fn altitude_name(a: Altitude) -> Seq<char> {
    match a {
        Altitude::Do => "Do"@,
        Altitude::Ship => "Ship"@,
        Altitude::Amplify => "Amplify"@,
        Altitude::Orient => "Orient"@,
    }
}

/// The report over all cards: their progress, the recommended altitude by
/// name, and its rationale.
pub fn create_altimeter_event(cards: &Vec<Card>) -> (r: AltimeterEvent)
    ensures
        r.kind@ == "altimeter.update"@,
        r.progress == progress_of(cards@),
        r.system_altitude@ == altitude_name(recommended(progress_of(cards@))),
        opt_chars(r.rationale) == rationale_of(progress_of(cards@)),
{
    let progress = calculate_progress(cards);
    let (altitude, rationale) = recommend_altitude(&progress);
    let system_altitude = match altitude {
        Altitude::Do => String::from_str("Do"),
        Altitude::Ship => String::from_str("Ship"),
        Altitude::Amplify => String::from_str("Amplify"),
        Altitude::Orient => String::from_str("Orient"),
    };
    AltimeterEvent { kind: String::from_str("altimeter.update"), system_altitude, progress, rationale }
}

} // verus!
