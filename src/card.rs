//! The card model. Identifiers are 128-bit integers (the value of a UUID) and
//! instants are whole seconds since the Unix epoch.

use vstd::prelude::*;

verus! {

/// Copying a value field by field. `a.is_copy_of(b)` holds when every field of
/// `a` equals that of `b`, where a `Vec` is compared by its elements.
pub trait Duplicate: Sized {
    spec fn is_copy_of(&self, orig: &Self) -> bool;

    fn duplicate(&self) -> (r: Self)
        ensures
            r.is_copy_of(self),
    ;
}

impl Duplicate for String {
    open spec fn is_copy_of(&self, orig: &String) -> bool {
        *self == *orig
    }

    fn duplicate(&self) -> (r: String) {
        self.clone()
    }
}

impl<T: Duplicate> Duplicate for Option<T> {
    open spec fn is_copy_of(&self, orig: &Option<T>) -> bool {
        match (self, orig) {
            (Some(a), Some(b)) => a.is_copy_of(b),
            (None, None) => true,
            _ => false,
        }
    }

    fn duplicate(&self) -> (r: Option<T>) {
        match self {
            Some(v) => Some(v.duplicate()),
            None => None,
        }
    }
}

impl<T: Duplicate> Duplicate for Vec<T> {
    open spec fn is_copy_of(&self, orig: &Vec<T>) -> bool {
        &&& self@.len() == orig@.len()
        &&& forall|i: int| 0 <= i < self@.len() ==> #[trigger] self@[i].is_copy_of(&orig@[i])
    }

    fn duplicate(&self) -> (r: Vec<T>) {
        let mut out: Vec<T> = Vec::new();
        let mut i: usize = 0;
        while i < self.len()
            invariant
                i <= self@.len(),
                out@.len() == i,
                forall|j: int| 0 <= j < i ==> #[trigger] out@[j].is_copy_of(&self@[j]),
            decreases self@.len() - i,
        {
            out.push(self[i].duplicate());
            i = i + 1;
        }
        out
    }
}

/// The four priority tiers, from most to least urgent.
#[derive(Clone, Copy, Debug, PartialEq, Eq, Structural)]
pub enum Altitude {
    Do,
    Ship,
    Amplify,
    Orient,
}

impl Duplicate for Altitude {
    open spec fn is_copy_of(&self, orig: &Altitude) -> bool {
        *self == *orig
    }

    fn duplicate(&self) -> (r: Altitude) {
        *self
    }
}

#[derive(Clone, Copy, Debug, PartialEq, Eq, Structural)]
pub enum CardType {
    DoNow,
    Ship,
    Amplify,
    Orient,
    Parked,
    BreakIn,
    BatchReview,
}

#[derive(Clone, Copy, Debug, PartialEq, Eq, Structural)]
pub enum CardStatus {
    Active,
    Pending,
    Completed,
    Parked,
    Cancelled,
}

#[derive(Clone, Copy, Debug, PartialEq, Eq, Structural)]
pub enum CardAction {
    Commit,
    Undo,
    Park,
    ShowDiff,
    RespondNow,
    RespondAtBreak,
    Open,
    GenerateDraft,
    Resume,
    DeclineRespectfully,
    ProcessBatch,
    ExpandToFlow,
    ArchiveAll,
    UnsubscribeAll,
    BlockSender,
}

impl Duplicate for CardAction {
    open spec fn is_copy_of(&self, orig: &CardAction) -> bool {
        *self == *orig
    }

    fn duplicate(&self) -> (r: CardAction) {
        *self
    }
}

#[derive(Clone, Copy, Debug, PartialEq, Eq, Structural)]
pub enum DiffOpType {
    Add,
    Remove,
    Replace,
}

#[derive(Clone, Copy, Debug, PartialEq, Eq, Structural)]
pub enum ChipStatus {
    Green,
    Red,
}

#[derive(Clone, Copy, Debug, PartialEq, Eq, Structural)]
pub enum DraftType {
    SlackMessage,
    EmailDraft,
    DocumentSection,
}

#[derive(Clone, Copy, Debug, PartialEq, Eq, Structural)]
pub enum BreakInUrgency {
    High,
    Medium,
    Low,
}

#[derive(Clone, Copy, Debug, PartialEq, Eq, Structural)]
pub enum IntentType {
    Transform,
    Summarize,
    Explain,
    Decide,
    Plan,
    Generate,
    Search,
    Operate,
}

/// A suggested operation that a do-now card offers.
#[derive(Clone, Debug)]
pub struct Intent {
    pub id: u128,
    pub name: String,
    pub description: String,
    pub intent_type: IntentType,
    pub rationale: String,
    pub preconditions: Vec<String>,
    pub estimated_tokens: u32,
    pub created_at: i64,
}

impl Duplicate for Intent {
    open spec fn is_copy_of(&self, orig: &Intent) -> bool {
        self.id == orig.id && self.name.is_copy_of(&orig.name) && self.description.is_copy_of(&orig.description)
            && self.intent_type == orig.intent_type && self.rationale.is_copy_of(&orig.rationale)
            && self.preconditions.is_copy_of(&orig.preconditions)
            && self.estimated_tokens == orig.estimated_tokens && self.created_at == orig.created_at
    }

    fn duplicate(&self) -> (r: Intent) {
        Intent {
            id: self.id,
            name: self.name.duplicate(),
            description: self.description.duplicate(),
            intent_type: self.intent_type,
            rationale: self.rationale.duplicate(),
            preconditions: self.preconditions.duplicate(),
            estimated_tokens: self.estimated_tokens,
            created_at: self.created_at,
        }
    }
}

#[derive(Clone, Debug)]
pub struct DiffOperation {
    pub op_type: DiffOpType,
    pub range_start: usize,
    pub range_end: usize,
    pub content: Option<String>,
}

impl Duplicate for DiffOperation {
    open spec fn is_copy_of(&self, orig: &DiffOperation) -> bool {
        self.op_type == orig.op_type && self.range_start == orig.range_start
            && self.range_end == orig.range_end && self.content.is_copy_of(&orig.content)
    }

    fn duplicate(&self) -> (r: DiffOperation) {
        DiffOperation {
            op_type: self.op_type,
            range_start: self.range_start,
            range_end: self.range_end,
            content: self.content.duplicate(),
        }
    }
}

#[derive(Clone, Debug)]
pub struct Diff {
    pub before: String,
    pub after: String,
    pub operations: Vec<DiffOperation>,
}

impl Duplicate for Diff {
    open spec fn is_copy_of(&self, orig: &Diff) -> bool {
        self.before.is_copy_of(&orig.before) && self.after.is_copy_of(&orig.after)
            && self.operations.is_copy_of(&orig.operations)
    }

    fn duplicate(&self) -> (r: Diff) {
        Diff {
            before: self.before.duplicate(),
            after: self.after.duplicate(),
            operations: self.operations.duplicate(),
        }
    }
}

/// One definition-of-done check of a ship card.
#[derive(Clone, Debug)]
pub struct DoDChip {
    pub id: String,
    pub label: String,
    pub status: ChipStatus,
    pub fix_suggestion: Option<String>,
}

impl Duplicate for DoDChip {
    open spec fn is_copy_of(&self, orig: &DoDChip) -> bool {
        self.id.is_copy_of(&orig.id) && self.label.is_copy_of(&orig.label) && self.status == orig.status
            && self.fix_suggestion.is_copy_of(&orig.fix_suggestion)
    }

    fn duplicate(&self) -> (r: DoDChip) {
        DoDChip {
            id: self.id.duplicate(),
            label: self.label.duplicate(),
            status: self.status,
            fix_suggestion: self.fix_suggestion.duplicate(),
        }
    }
}

#[derive(Clone, Debug)]
pub struct AmplifySuggestion {
    pub target: String,
    pub action: String,
    pub rationale: String,
}

impl Duplicate for AmplifySuggestion {
    open spec fn is_copy_of(&self, orig: &AmplifySuggestion) -> bool {
        self.target.is_copy_of(&orig.target) && self.action.is_copy_of(&orig.action)
            && self.rationale.is_copy_of(&orig.rationale)
    }

    fn duplicate(&self) -> (r: AmplifySuggestion) {
        AmplifySuggestion {
            target: self.target.duplicate(),
            action: self.action.duplicate(),
            rationale: self.rationale.duplicate(),
        }
    }
}

#[derive(Clone, Debug)]
pub struct Draft {
    pub id: u128,
    pub draft_type: DraftType,
    pub recipient: String,
    pub content: String,
}

impl Duplicate for Draft {
    open spec fn is_copy_of(&self, orig: &Draft) -> bool {
        self.id == orig.id && self.draft_type == orig.draft_type && self.recipient.is_copy_of(&orig.recipient)
            && self.content.is_copy_of(&orig.content)
    }

    fn duplicate(&self) -> (r: Draft) {
        Draft {
            id: self.id,
            draft_type: self.draft_type,
            recipient: self.recipient.duplicate(),
            content: self.content.duplicate(),
        }
    }
}

/// A ranked task of an orient card. Scores are in thousandths: 0 is 0.0 and
/// 1000 is 1.0.
#[derive(Clone, Debug)]
pub struct NextTask {
    pub id: u128,
    pub title: String,
    pub rationale: String,
    pub urgency_score: u16,
    pub impact_score: u16,
}

impl Duplicate for NextTask {
    open spec fn is_copy_of(&self, orig: &NextTask) -> bool {
        self.id == orig.id && self.title.is_copy_of(&orig.title) && self.rationale.is_copy_of(&orig.rationale)
            && self.urgency_score == orig.urgency_score && self.impact_score == orig.impact_score
    }

    fn duplicate(&self) -> (r: NextTask) {
        NextTask {
            id: self.id,
            title: self.title.duplicate(),
            rationale: self.rationale.duplicate(),
            urgency_score: self.urgency_score,
            impact_score: self.impact_score,
        }
    }
}

/// One low-priority mail as listed on a batch-review card.
#[derive(Clone, Debug)]
pub struct EmailSummary {
    pub id: String,
    pub sender: String,
    pub subject: String,
    pub category: String,
    pub has_unsubscribe: bool,
    pub snippet: String,
}

impl Duplicate for EmailSummary {
    open spec fn is_copy_of(&self, orig: &EmailSummary) -> bool {
        self.id.is_copy_of(&orig.id) && self.sender.is_copy_of(&orig.sender)
            && self.subject.is_copy_of(&orig.subject) && self.category.is_copy_of(&orig.category)
            && self.has_unsubscribe == orig.has_unsubscribe && self.snippet.is_copy_of(&orig.snippet)
    }

    fn duplicate(&self) -> (r: EmailSummary) {
        EmailSummary {
            id: self.id.duplicate(),
            sender: self.sender.duplicate(),
            subject: self.subject.duplicate(),
            category: self.category.duplicate(),
            has_unsubscribe: self.has_unsubscribe,
            snippet: self.snippet.duplicate(),
        }
    }
}

/// The payload of a card; each variant belongs to the card type of the same name.
#[derive(Clone, Debug)]
pub enum CardContent {
    DoNow { intent: Intent, preview: String, diff: Option<Diff> },
    Ship { dod_chips: Vec<DoDChip>, version_tag: String },
    Amplify { suggestions: Vec<AmplifySuggestion>, drafts: Vec<Draft> },
    Orient { next_tasks: Vec<NextTask> },
    Parked { original_card_id: u128, wake_time: i64, wake_reason: String },
    BreakIn { source: String, message: String, sender: String, urgency: BreakInUrgency },
    BatchReview { emails: Vec<EmailSummary>, suggested_actions: Vec<String> },
}

impl CardContent {
    /// The card type that this payload belongs to.
    pub open spec fn kind_of(self) -> CardType {
        match self {
            CardContent::DoNow { .. } => CardType::DoNow,
            CardContent::Ship { .. } => CardType::Ship,
            CardContent::Amplify { .. } => CardType::Amplify,
            CardContent::Orient { .. } => CardType::Orient,
            CardContent::Parked { .. } => CardType::Parked,
            CardContent::BreakIn { .. } => CardType::BreakIn,
            CardContent::BatchReview { .. } => CardType::BatchReview,
        }
    }

    pub fn kind(&self) -> (r: CardType)
        ensures
            r == self.kind_of(),
    {
        match self {
            CardContent::DoNow { .. } => CardType::DoNow,
            CardContent::Ship { .. } => CardType::Ship,
            CardContent::Amplify { .. } => CardType::Amplify,
            CardContent::Orient { .. } => CardType::Orient,
            CardContent::Parked { .. } => CardType::Parked,
            CardContent::BreakIn { .. } => CardType::BreakIn,
            CardContent::BatchReview { .. } => CardType::BatchReview,
        }
    }
}

impl Duplicate for CardContent {
    open spec fn is_copy_of(&self, orig: &CardContent) -> bool {
        match (self, orig) {
            (CardContent::DoNow { intent: a1, preview: a2, diff: a3 },
             CardContent::DoNow { intent: b1, preview: b2, diff: b3 }) =>
                a1.is_copy_of(b1) && a2.is_copy_of(b2) && a3.is_copy_of(b3),
            (CardContent::Ship { dod_chips: a1, version_tag: a2 },
             CardContent::Ship { dod_chips: b1, version_tag: b2 }) =>
                a1.is_copy_of(b1) && a2.is_copy_of(b2),
            (CardContent::Amplify { suggestions: a1, drafts: a2 },
             CardContent::Amplify { suggestions: b1, drafts: b2 }) =>
                a1.is_copy_of(b1) && a2.is_copy_of(b2),
            (CardContent::Orient { next_tasks: a1 }, CardContent::Orient { next_tasks: b1 }) =>
                a1.is_copy_of(b1),
            (CardContent::Parked { original_card_id: a1, wake_time: a2, wake_reason: a3 },
             CardContent::Parked { original_card_id: b1, wake_time: b2, wake_reason: b3 }) =>
                a1 == b1 && a2 == b2 && a3.is_copy_of(b3),
            (CardContent::BreakIn { source: a1, message: a2, sender: a3, urgency: a4 },
             CardContent::BreakIn { source: b1, message: b2, sender: b3, urgency: b4 }) =>
                a1.is_copy_of(b1) && a2.is_copy_of(b2) && a3.is_copy_of(b3) && a4 == b4,
            (CardContent::BatchReview { emails: a1, suggested_actions: a2 },
             CardContent::BatchReview { emails: b1, suggested_actions: b2 }) =>
                a1.is_copy_of(b1) && a2.is_copy_of(b2),
            _ => false,
        }
    }

    fn duplicate(&self) -> (r: CardContent) {
        match self {
            CardContent::DoNow { intent, preview, diff } => CardContent::DoNow {
                intent: intent.duplicate(),
                preview: preview.duplicate(),
                diff: diff.duplicate(),
            },
            CardContent::Ship { dod_chips, version_tag } => CardContent::Ship {
                dod_chips: dod_chips.duplicate(),
                version_tag: version_tag.duplicate(),
            },
            CardContent::Amplify { suggestions, drafts } => CardContent::Amplify {
                suggestions: suggestions.duplicate(),
                drafts: drafts.duplicate(),
            },
            CardContent::Orient { next_tasks } => CardContent::Orient {
                next_tasks: next_tasks.duplicate(),
            },
            CardContent::Parked { original_card_id, wake_time, wake_reason } => CardContent::Parked {
                original_card_id: *original_card_id,
                wake_time: *wake_time,
                wake_reason: wake_reason.duplicate(),
            },
            CardContent::BreakIn { source, message, sender, urgency } => CardContent::BreakIn {
                source: source.duplicate(),
                message: message.duplicate(),
                sender: sender.duplicate(),
                urgency: *urgency,
            },
            CardContent::BatchReview { emails, suggested_actions } => CardContent::BatchReview {
                emails: emails.duplicate(),
                suggested_actions: suggested_actions.duplicate(),
            },
        }
    }
}

/// Where a card came from: a document and, optionally, a block in it.
#[derive(Clone, Debug)]
pub struct OriginObject {
    pub doc_id: String,
    pub block_id: Option<String>,
}

impl Duplicate for OriginObject {
    open spec fn is_copy_of(&self, orig: &OriginObject) -> bool {
        self.doc_id.is_copy_of(&orig.doc_id) && self.block_id.is_copy_of(&orig.block_id)
    }

    fn duplicate(&self) -> (r: OriginObject) {
        OriginObject { doc_id: self.doc_id.duplicate(), block_id: self.block_id.duplicate() }
    }
}

/// Mail annotations of a card made from a message.
#[derive(Clone, Debug)]
pub struct CardMetadata {
    pub email_sender: Option<String>,
    pub email_subject: Option<String>,
    pub email_date: Option<String>,
    pub reply_templates: Option<Vec<String>>,
    pub email_category: Option<String>,
}

impl Duplicate for CardMetadata {
    open spec fn is_copy_of(&self, orig: &CardMetadata) -> bool {
        self.email_sender.is_copy_of(&orig.email_sender) && self.email_subject.is_copy_of(&orig.email_subject)
            && self.email_date.is_copy_of(&orig.email_date) && self.reply_templates.is_copy_of(&orig.reply_templates)
            && self.email_category.is_copy_of(&orig.email_category)
    }

    fn duplicate(&self) -> (r: CardMetadata) {
        CardMetadata {
            email_sender: self.email_sender.duplicate(),
            email_subject: self.email_subject.duplicate(),
            email_date: self.email_date.duplicate(),
            reply_templates: self.reply_templates.duplicate(),
            email_category: self.email_category.duplicate(),
        }
    }
}

/// A unit of work surfaced in the feed.
#[derive(Clone, Debug)]
pub struct Card {
    pub id: u128,
    pub card_type: CardType,
    pub altitude: Altitude,
    pub title: String,
    pub content: CardContent,
    pub actions: Vec<CardAction>,
    pub origin_object: Option<OriginObject>,
    pub created_at: i64,
    pub status: CardStatus,
    pub metadata: Option<CardMetadata>,
}

impl Card {
    /// The payload agrees with the card type.
    pub open spec fn well_formed(self) -> bool {
        self.content.kind_of() == self.card_type
    }
}

impl Duplicate for Card {
    open spec fn is_copy_of(&self, orig: &Card) -> bool {
        self.id == orig.id && self.card_type == orig.card_type && self.altitude == orig.altitude
            && self.title.is_copy_of(&orig.title) && self.content.is_copy_of(&orig.content)
            && self.actions.is_copy_of(&orig.actions) && self.origin_object.is_copy_of(&orig.origin_object)
            && self.created_at == orig.created_at && self.status == orig.status
            && self.metadata.is_copy_of(&orig.metadata)
    }

    fn duplicate(&self) -> (r: Card) {
        Card {
            id: self.id,
            card_type: self.card_type,
            altitude: self.altitude,
            title: self.title.duplicate(),
            content: self.content.duplicate(),
            actions: self.actions.duplicate(),
            origin_object: self.origin_object.duplicate(),
            created_at: self.created_at,
            status: self.status,
            metadata: self.metadata.duplicate(),
        }
    }
}

} // verus!
