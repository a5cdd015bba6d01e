//! Heuristic intent suggestions for the object in focus.

use vstd::prelude::*;
use crate::card::{Intent, IntentType};
use crate::ids::{fresh_id, now_seconds};
use crate::mail::texts;
use crate::text::same_text;

verus! {

/// What is known of the object in focus.
#[derive(Clone, Debug)]
pub struct ContextSignals {
    pub object_type: String,
    pub structure_signals: Vec<String>,
    pub recent_actions: Vec<String>,
    pub semantic_keywords: Vec<String>,
}

/// The intents offered for an object.
#[derive(Clone, Debug)]
pub struct IntentPalette {
    pub intents: Vec<Intent>,
    pub active_object_id: Option<String>,
    pub context_signals: ContextSignals,
}

/// The kinds of suggestion, in the order they are offered.
#[derive(Clone, Copy, Debug, PartialEq, Eq, Structural)]
pub enum Suggestion {
    AddHeader,
    Tighten,
    ExtractPoints,
    NextSteps,
}

/// The suggestions for a context, before the count is applied.
pub open spec fn base_suggestions(ctx: ContextSignals) -> Seq<Suggestion> {
    if ctx.object_type@ == "text"@ {
        (if exists|j: int| 0 <= j < ctx.structure_signals@.len() && (#[trigger] ctx.structure_signals@[j])@ == "missing_header"@ {
            seq![Suggestion::AddHeader]
        } else {
            Seq::empty()
        }) + seq![Suggestion::Tighten, Suggestion::ExtractPoints]
    } else {
        Seq::empty()
    }
}

/// The base suggestions padded with next-step suggestions up to `min(count, 3)`,
/// then cut to `count`.
pub open spec fn suggestions_for(ctx: ContextSignals, count: nat) -> Seq<Suggestion> {
    let base = base_suggestions(ctx);
    let floor: nat = if count < 3 { count } else { 3 };
    let padded = if base.len() < floor {
        base + Seq::new((floor - base.len()) as nat, |i: int| Suggestion::NextSteps)
    } else {
        base
    };
    if padded.len() > count { padded.take(count as int) } else { padded }
}

/// The intent offered for a suggestion, but for its id and time.
pub open spec fn intent_is(i: Intent, s: Suggestion) -> bool {
    match s {
        Suggestion::AddHeader => i.name@ == "Add problem statement header"@
            && i.description@ == "Add a clear problem statement header to this section"@
            && i.intent_type == IntentType::Transform
            && i.rationale@ == "No problem statement header detected"@
            && texts(i.preconditions@) == seq!["block.type == 'text'"@]
            && i.estimated_tokens == 800,
        Suggestion::Tighten => i.name@ == "Tighten for clarity"@
            && i.description@ == "Reduce wordiness and improve clarity"@
            && i.intent_type == IntentType::Transform
            && i.rationale@ == "Long paragraph detected (>200 words)"@
            && texts(i.preconditions@) == seq!["block.type == 'text'"@]
            && i.estimated_tokens == 600,
        Suggestion::ExtractPoints => i.name@ == "Extract key points"@
            && i.description@ == "Extract key points as a bulleted list"@
            && i.intent_type == IntentType::Summarize
            && i.rationale@ == "Dense text could benefit from summary"@
            && texts(i.preconditions@) == seq!["block.type == 'text'"@]
            && i.estimated_tokens == 500,
        Suggestion::NextSteps => i.name@ == "Suggest next steps"@
            && i.description@ == "Generate actionable next steps"@
            && i.intent_type == IntentType::Plan
            && i.rationale@ == "Help maintain momentum"@
            && i.preconditions@.len() == 0
            && i.estimated_tokens == 400,
    }
}

fn make_intent(s: Suggestion) -> (r: Intent)
    ensures
        intent_is(r, s),
{
    let (name, description, intent_type, rationale, tokens) = match s {
        Suggestion::AddHeader => (
            "Add problem statement header",
            "Add a clear problem statement header to this section",
            IntentType::Transform,
            "No problem statement header detected",
            800u32,
        ),
        Suggestion::Tighten => (
            "Tighten for clarity",
            "Reduce wordiness and improve clarity",
            IntentType::Transform,
            "Long paragraph detected (>200 words)",
            600u32,
        ),
        Suggestion::ExtractPoints => (
            "Extract key points",
            "Extract key points as a bulleted list",
            IntentType::Summarize,
            "Dense text could benefit from summary",
            500u32,
        ),
        Suggestion::NextSteps => (
            "Suggest next steps",
            "Generate actionable next steps",
            IntentType::Plan,
            "Help maintain momentum",
            400u32,
        ),
    };
    let mut preconditions: Vec<String> = Vec::new();
    match s {
        Suggestion::NextSteps => {},
        _ => {
            preconditions.push(String::from_str("block.type == 'text'"));
        },
    }
    assert(texts(preconditions@) =~= match s {
        Suggestion::NextSteps => Seq::<Seq<char>>::empty(),
        _ => seq!["block.type == 'text'"@],
    });
    Intent {
        id: fresh_id(),
        name: String::from_str(name),
        description: String::from_str(description),
        intent_type,
        rationale: String::from_str(rationale),
        preconditions,
        estimated_tokens: tokens,
        created_at: now_seconds(),
    }
}

fn has_signal(signals: &Vec<String>, wanted: &str) -> (r: bool)
    ensures
        r == exists|j: int| 0 <= j < signals@.len() && (#[trigger] signals@[j])@ == wanted@,
{
    let mut i: usize = 0;
    while i < signals.len()
        invariant
            i <= signals@.len(),
            forall|j: int| 0 <= j < i ==> (#[trigger] signals@[j])@ != wanted@,
        decreases signals@.len() - i,
    {
        if same_text(signals[i].as_str(), wanted) {
            return true;
        }
        i = i + 1;
    }
    false
}

fn base_list(ctx: &ContextSignals) -> (r: Vec<Suggestion>)
    ensures
        r@ == base_suggestions(*ctx),
{
    let mut v: Vec<Suggestion> = Vec::new();
    if same_text(ctx.object_type.as_str(), "text") {
        if has_signal(&ctx.structure_signals, "missing_header") {
            v.push(Suggestion::AddHeader);
        }
        v.push(Suggestion::Tighten);
        v.push(Suggestion::ExtractPoints);
    }
    assert(v@ =~= base_suggestions(*ctx));
    v
}

/// Suggests intents for the object in focus.
pub struct IntentService {}

impl IntentService {
    pub fn new() -> IntentService {
        IntentService {}
    }

    /// Up to `count` intents: for text, a header suggestion where one is
    /// missing, then tightening and key points; padded with next-step
    /// suggestions to at least `min(count, 3)`.
    pub fn generate_intents(&self, context_signals: &ContextSignals, count: usize) -> (r: Vec<Intent>)
        ensures
            r@.len() == suggestions_for(*context_signals, count as nat).len(),
            forall|i: int| 0 <= i < r@.len()
                ==> intent_is(#[trigger] r@[i], suggestions_for(*context_signals, count as nat)[i]),
    {
        let mut plan = base_list(context_signals);
        let floor: usize = if count < 3 { count } else { 3 };
        let ghost base = plan@;
        while plan.len() < floor
            invariant
                floor <= 3,
                base == base_suggestions(*context_signals),
                base.len() <= plan@.len(),
                plan@.len() <= (if base.len() < floor { floor as int } else { base.len() as int }),
                plan@ == base + Seq::new((plan@.len() - base.len()) as nat, |i: int| Suggestion::NextSteps),
            decreases floor - plan@.len(),
        {
            plan.push(Suggestion::NextSteps);
            assert(plan@ =~= base + Seq::new((plan@.len() - base.len()) as nat, |i: int| Suggestion::NextSteps));
        }
        if plan.len() > count {
            plan.truncate(count);
        }
        proof {
            let want = suggestions_for(*context_signals, count as nat);
            if base.len() >= floor {
                assert(plan@.len() == base.len() || plan@.len() == count);
            }
            assert(plan@ =~= want);
        }
        let mut out: Vec<Intent> = Vec::new();
        let mut i: usize = 0;
        while i < plan.len()
            invariant
                i <= plan@.len(),
                out@.len() == i,
                forall|j: int| 0 <= j < i ==> intent_is(#[trigger] out@[j], plan@[j]),
            decreases plan@.len() - i,
        {
            out.push(make_intent(plan[i]));
            i = i + 1;
        }
        out
    }

    /// The palette for an object: three intents for its context; an object
    /// of unknown type is taken as text.
    pub fn generate_palette(&self, active_object_id: Option<String>, object_type: Option<String>) -> (r: IntentPalette)
        ensures
            r.context_signals.object_type@ == match object_type {
                Some(t) => t@,
                None => "text"@,
            },
            r.context_signals.structure_signals@.len() == 0,
            r.context_signals.recent_actions@.len() == 0,
            r.context_signals.semantic_keywords@.len() == 0,
            r.active_object_id == active_object_id,
            r.intents@.len() == suggestions_for(r.context_signals, 3).len(),
            forall|i: int| 0 <= i < r.intents@.len()
                ==> intent_is(#[trigger] r.intents@[i], suggestions_for(r.context_signals, 3)[i]),
    {
        let context_signals = ContextSignals {
            object_type: match object_type {
                Some(t) => t,
                None => String::from_str("text"),
            },
            structure_signals: Vec::new(),
            recent_actions: Vec::new(),
            semantic_keywords: Vec::new(),
        };
        let intents = self.generate_intents(&context_signals, 3);
        IntentPalette { intents, active_object_id, context_signals }
    }

    /// The intent stored under `id`: a sample transform intent.
    pub fn get_intent(&self, id: u128) -> (r: Option<Intent>)
        ensures
            match r {
                Some(i) => i.id == id && i.name@ == "Sample Intent"@ && i.description@ == "This is a sample intent"@
                    && i.intent_type == IntentType::Transform && i.rationale@ == "Sample rationale"@
                    && i.preconditions@.len() == 0 && i.estimated_tokens == 500,
                None => false,
            },
    {
        Some(Intent {
            id,
            name: String::from_str("Sample Intent"),
            description: String::from_str("This is a sample intent"),
            intent_type: IntentType::Transform,
            rationale: String::from_str("Sample rationale"),
            preconditions: Vec::new(),
            estimated_tokens: 500,
            created_at: now_seconds(),
        })
    }
}

} // verus!
