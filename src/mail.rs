//! Mail triage: the rules that sort incoming messages into categories and
//! turn them into cards.

use vstd::prelude::*;
use vstd::string::StringSliceAdditionalSpecFns;
use vstd::utf8::{encode_utf8, is_char_boundary};
use crate::card::{
    Altitude, BreakInUrgency, Card, CardAction, CardContent, CardMetadata, CardStatus, CardType, EmailSummary, Intent,
    IntentType, NextTask, OriginObject,
};
use crate::ids::{fresh_id, now_seconds};
use crate::text::{
    before_first, code_sum, code_sum_mod, contains_seq, decimal_chars, decimal_text, lower_of, lowercase, opt_chars,
    text_before, text_contains, trim_text, trimmed_of,
};

verus! {

/// Credentials of the mail connector.
#[derive(Clone, Debug)]
pub struct GmailClient {
    pub access_token: Option<String>,
    pub client_id: Option<String>,
    pub client_secret: Option<String>,
    pub refresh_token: Option<String>,
}

#[derive(Clone, Debug)]
pub struct GmailId {
    pub id: String,
}

#[derive(Clone, Debug)]
pub struct GmailHeader {
    pub name: String,
    pub value: String,
}

#[derive(Clone, Debug)]
pub struct GmailPayload {
    pub headers: Option<Vec<GmailHeader>>,
}

/// An unread message as the connector hands it over.
#[derive(Clone, Debug)]
pub struct GmailMessage {
    pub id: String,
    pub thread_id: String,
    pub snippet: String,
    pub subject: String,
    pub sender: String,
    pub date: String,
}

#[derive(Clone, Copy, Debug, PartialEq, Eq, Structural)]
pub enum EmailCategory {
    /// Direct personal mail that needs attention.
    Personal,
    /// Sales and outreach.
    Sales,
    Newsletter,
    /// Automated notifications.
    Notification,
    /// Low-value mail.
    Spam,
}

pub open spec fn has(l: Seq<char>, p: Seq<char>) -> bool {
    contains_seq(l, p)
}

/// The category of a message, from its lower-cased snippet.
pub open spec fn category_of(l: Seq<char>) -> EmailCategory {
    if has(l, "unsubscribe"@) || has(l, "view in browser"@) || has(l, "no longer wish to receive"@) {
        EmailCategory::Newsletter
    } else if has(l, "notification"@) || has(l, "alert"@) || has(l, "automated"@) || has(l, "do not reply"@) {
        EmailCategory::Notification
    } else if has(l, "demo"@) || has(l, "schedule a call"@) || has(l, "quick chat"@) || has(l, "following up"@)
        || has(l, "reach out"@) || has(l, "opportunity"@) {
        EmailCategory::Sales
    } else if has(l, "?"@) || has(l, "thanks"@) || has(l, "hi "@) || has(l, "hey "@) || has(l, "please"@)
        || has(l, "could you"@) {
        EmailCategory::Personal
    } else {
        EmailCategory::Notification
    }
}

/// The lower-cased snippet offers a way to stop the mail.
pub open spec fn unsubscribe_of(l: Seq<char>) -> bool {
    has(l, "unsubscribe"@) || has(l, "manage preferences"@) || has(l, "email preferences"@) || has(l, "opt out"@)
}

/// The lower-cased snippet shows a warm lead rather than cold outreach.
pub open spec fn relevant_sales_of(l: Seq<char>) -> bool {
    has(l, "follow up on our conversation"@) || has(l, "as discussed"@) || has(l, "per our meeting"@)
}

/// The card type and altitude for a message of category `c`.
pub open spec fn card_kind_of(l: Seq<char>, c: EmailCategory) -> (CardType, Altitude) {
    match c {
        EmailCategory::Personal => if has(l, "urgent"@) || has(l, "asap"@) {
            (CardType::BreakIn, Altitude::Do)
        } else {
            (CardType::DoNow, Altitude::Do)
        },
        EmailCategory::Sales => (CardType::Ship, Altitude::Ship),
        _ => (CardType::Orient, Altitude::Orient),
    }
}

pub open spec fn intent_name_of(c: EmailCategory) -> Seq<char> {
    match c {
        EmailCategory::Personal => "Reply to personal email"@,
        EmailCategory::Sales => "Evaluate sales outreach"@,
        EmailCategory::Newsletter => "Review newsletter"@,
        EmailCategory::Notification => "Process notification"@,
        EmailCategory::Spam => "Review and delete"@,
    }
}

pub open spec fn actions_of(c: EmailCategory) -> Seq<CardAction> {
    match c {
        EmailCategory::Personal => seq![CardAction::Open, CardAction::GenerateDraft, CardAction::Park],
        EmailCategory::Sales => seq![
            CardAction::DeclineRespectfully,
            CardAction::GenerateDraft,
            CardAction::Open,
            CardAction::Park,
        ],
        _ => seq![CardAction::Open, CardAction::Park],
    }
}

/// The display name of a sender: the name before `<`, trimmed; else the part
/// before `@`; else the whole field.
pub open spec fn sender_name_of(sender: Seq<char>) -> Seq<char> {
    if sender.len() == 0 {
        "Unknown Sender"@
    } else {
        match before_first(sender, '<') {
            Some(name) => trimmed_of(name),
            None => match before_first(sender, '@') {
                Some(local) => local,
                None => sender,
            },
        }
    }
}

pub open spec fn reply_templates_of(l: Seq<char>, c: EmailCategory) -> Seq<Seq<char>> {
    match c {
        EmailCategory::Personal => if has(l, "meeting"@) || has(l, "call"@) {
            seq![
                "I'm available for a call. What times work for you?"@,
                "Let me check my calendar and get back to you with available times."@,
                "I need to postpone. Can we reschedule for next week?"@,
            ]
        } else if has(l, "?"@) {
            seq![
                "Thanks for reaching out. Let me look into this and get back to you."@,
                "Yes, that works for me."@,
                "I need more information to answer this properly."@,
            ]
        } else {
            seq![
                "Thanks for the update."@,
                "Got it, I'll take care of this."@,
                "Let me know if you need anything else."@,
            ]
        },
        EmailCategory::Sales => seq![
            "Thanks for reaching out. I'm not interested at this time."@,
            "Please remove me from your mailing list."@,
            "I'll reach out if we need this in the future."@,
        ],
        _ => seq!["Acknowledged."@, "Thanks for the information."@],
    }
}

pub open spec fn reasoning_of(l: Seq<char>, c: EmailCategory) -> Seq<char> {
    match c {
        EmailCategory::Personal => if has(l, "?"@) {
            "Personal email with question requiring response"@
        } else if has(l, "meeting"@) || has(l, "call"@) {
            "Personal meeting or call request"@
        } else {
            "Personal email requiring attention"@
        },
        EmailCategory::Sales => if has(l, "demo"@) {
            "Sales demo request"@
        } else if has(l, "follow"@) {
            "Sales follow-up"@
        } else {
            "Sales outreach requiring decision"@
        },
        EmailCategory::Newsletter => "Newsletter for optional reading"@,
        EmailCategory::Notification => "Automated notification"@,
        EmailCategory::Spam => "Low-value email"@,
    }
}

pub open spec fn texts(v: Seq<String>) -> Seq<Seq<char>> {
    v.map_values(|s: String| s@)
}

fn has_text(l: &String, p: &str) -> (r: bool)
    ensures
        r == has(l@, p@),
{
    text_contains(l.as_str(), p)
}

fn texts_of(v: Vec<&str>) -> (r: Vec<String>)
    ensures
        texts(r@) == v@.map_values(|s: &str| s@),
{
    let mut out: Vec<String> = Vec::new();
    let mut i: usize = 0;
    while i < v.len()
        invariant
            i <= v@.len(),
            out@.len() == i,
            forall|j: int| 0 <= j < i ==> (#[trigger] out@[j])@ == v@[j]@,
        decreases v@.len() - i,
    {
        out.push(String::from_str(v[i]));
        i = i + 1;
    }
    assert(texts(out@) =~= v@.map_values(|s: &str| s@));
    out
}

/// The categorizing rules, on an already lower-cased snippet.
pub fn categorize_lowered(l: &String) -> (r: EmailCategory)
    ensures
        r == category_of(l@),
{
    if has_text(l, "unsubscribe") || has_text(l, "view in browser") || has_text(l, "no longer wish to receive") {
        return EmailCategory::Newsletter;
    }
    if has_text(l, "notification") || has_text(l, "alert") || has_text(l, "automated") || has_text(l, "do not reply") {
        return EmailCategory::Notification;
    }
    if has_text(l, "demo") || has_text(l, "schedule a call") || has_text(l, "quick chat") || has_text(l, "following up")
        || has_text(l, "reach out") || has_text(l, "opportunity") {
        return EmailCategory::Sales;
    }
    if has_text(l, "?") || has_text(l, "thanks") || has_text(l, "hi ") || has_text(l, "hey ") || has_text(l, "please")
        || has_text(l, "could you") {
        return EmailCategory::Personal;
    }
    EmailCategory::Notification
}

/// The unsubscribe check, on an already lower-cased snippet.
pub fn unsubscribe_lowered(l: &String) -> (r: bool)
    ensures
        r == unsubscribe_of(l@),
{
    has_text(l, "unsubscribe") || has_text(l, "manage preferences") || has_text(l, "email preferences")
        || has_text(l, "opt out")
}

/// The warm-lead check, on an already lower-cased snippet.
pub fn relevant_sales_lowered(l: &String) -> (r: bool)
    ensures
        r == relevant_sales_of(l@),
{
    has_text(l, "follow up on our conversation") || has_text(l, "as discussed") || has_text(l, "per our meeting")
}

/// The card type and altitude, on an already lower-cased snippet.
pub fn card_kind_lowered(l: &String, category: EmailCategory) -> (r: (CardType, Altitude))
    ensures
        r == card_kind_of(l@, category),
{
    match category {
        EmailCategory::Personal => {
            if has_text(l, "urgent") || has_text(l, "asap") {
                (CardType::BreakIn, Altitude::Do)
            } else {
                (CardType::DoNow, Altitude::Do)
            }
        },
        EmailCategory::Sales => (CardType::Ship, Altitude::Ship),
        _ => (CardType::Orient, Altitude::Orient),
    }
}

/// The reply templates, on an already lower-cased snippet.
pub fn reply_templates_lowered(l: &String, category: EmailCategory) -> (r: Vec<String>)
    ensures
        texts(r@) == reply_templates_of(l@, category),
{
    let v: Vec<&str> = match category {
        EmailCategory::Personal => {
            if has_text(l, "meeting") || has_text(l, "call") {
                vec![
                    "I'm available for a call. What times work for you?",
                    "Let me check my calendar and get back to you with available times.",
                    "I need to postpone. Can we reschedule for next week?",
                ]
            } else if has_text(l, "?") {
                vec![
                    "Thanks for reaching out. Let me look into this and get back to you.",
                    "Yes, that works for me.",
                    "I need more information to answer this properly.",
                ]
            } else {
                vec![
                    "Thanks for the update.",
                    "Got it, I'll take care of this.",
                    "Let me know if you need anything else.",
                ]
            }
        },
        EmailCategory::Sales => vec![
            "Thanks for reaching out. I'm not interested at this time.",
            "Please remove me from your mailing list.",
            "I'll reach out if we need this in the future.",
        ],
        _ => vec!["Acknowledged.", "Thanks for the information."],
    };
    let r = texts_of(v);
    assert(texts(r@) =~= reply_templates_of(l@, category));
    r
}

/// The reasoning line, on an already lower-cased snippet.
pub fn reasoning_lowered(l: &String, category: EmailCategory) -> (r: String)
    ensures
        r@ == reasoning_of(l@, category),
{
    match category {
        EmailCategory::Personal => {
            if has_text(l, "?") {
                String::from_str("Personal email with question requiring response")
            } else if has_text(l, "meeting") || has_text(l, "call") {
                String::from_str("Personal meeting or call request")
            } else {
                String::from_str("Personal email requiring attention")
            }
        },
        EmailCategory::Sales => {
            if has_text(l, "demo") {
                String::from_str("Sales demo request")
            } else if has_text(l, "follow") {
                String::from_str("Sales follow-up")
            } else {
                String::from_str("Sales outreach requiring decision")
            }
        },
        EmailCategory::Newsletter => String::from_str("Newsletter for optional reading"),
        EmailCategory::Notification => String::from_str("Automated notification"),
        EmailCategory::Spam => String::from_str("Low-value email"),
    }
}

/// The sender's display name.
pub fn sender_name(sender: &String) -> (r: String)
    ensures
        r@ == sender_name_of(sender@),
{
    if sender.as_str().is_empty() {
        return String::from_str("Unknown Sender");
    }
    match text_before(sender.as_str(), '<') {
        Some(name) => trim_text(name.as_str()),
        None => match text_before(sender.as_str(), '@') {
            Some(local) => local,
            None => sender.clone(),
        },
    }
}


/// The largest char boundary at or below `e`.
pub open spec fn boundary_at_or_below(b: Seq<u8>, e: nat) -> nat
    decreases e,
{
    if e == 0 || is_char_boundary(b, e as int) {
        e
    } else {
        boundary_at_or_below(b, (e - 1) as nat)
    }
}

/// The title of a card made from a message: the subject; else the snippet,
/// cut to at most 74 bytes at a char boundary and marked with "..." when it is
/// longer than 77 bytes.
pub open spec fn title_ok(t: Seq<char>, subject: Seq<char>, snippet: Seq<char>) -> bool {
    if subject.len() > 0 {
        t == subject
    } else if encode_utf8(snippet).len() > 77 {
        &&& t.len() >= 3
        &&& t.subrange(t.len() - 3, t.len() as int) == "..."@
        &&& encode_utf8(t.subrange(0, t.len() - 3))
            == encode_utf8(snippet).subrange(0, boundary_at_or_below(encode_utf8(snippet), 74) as int)
    } else {
        t == snippet
    }
}

pub open spec fn category_name(c: EmailCategory) -> Seq<char> {
    match c {
        EmailCategory::Personal => "Personal"@,
        EmailCategory::Sales => "Sales"@,
        EmailCategory::Newsletter => "Newsletter"@,
        EmailCategory::Notification => "Notification"@,
        EmailCategory::Spam => "Spam"@,
    }
}

pub open spec fn category_label(c: EmailCategory) -> Seq<char> {
    match c {
        EmailCategory::Personal => "personal"@,
        EmailCategory::Sales => "sales"@,
        EmailCategory::Newsletter => "newsletter"@,
        EmailCategory::Notification => "notification"@,
        EmailCategory::Spam => "spam"@,
    }
}

pub open spec fn intent_type_of(c: EmailCategory) -> IntentType {
    match c {
        EmailCategory::Personal => IntentType::Operate,
        EmailCategory::Sales => IntentType::Decide,
        _ => IntentType::Search,
    }
}

/// The intent of a do-now card for a message, but for its id, time and
/// description.
pub open spec fn intent_for(i: Intent, m: GmailMessage, c: EmailCategory) -> bool {
    &&& i.name@ == intent_name_of(c)
    &&& i.intent_type == intent_type_of(c)
    &&& i.rationale@ == reasoning_of(lower_of(m.snippet@), c)
    &&& i.preconditions@.len() == 0
    &&& i.estimated_tokens == 100
}

/// The payload of a card of type `t` for a message, but for fresh ids and times.
pub open spec fn content_for(content: CardContent, m: GmailMessage, t: CardType, c: EmailCategory) -> bool {
    let l = lower_of(m.snippet@);
    match t {
        CardType::BreakIn => match content {
            CardContent::BreakIn { source, message, sender, urgency } => source@ == "Gmail"@
                && message@ == m.snippet@ && sender@ == sender_name_of(m.sender@)
                && urgency == BreakInUrgency::High,
            _ => false,
        },
        CardType::DoNow => match content {
            CardContent::DoNow { intent, preview, diff } => intent_for(intent, m, c)
                && intent.description@ == "From: "@ + sender_name_of(m.sender@) + "\nSubject: "@ + m.subject@
                    + "\n\n"@ + m.snippet@
                && preview@ == m.snippet@ && diff is None,
            _ => false,
        },
        CardType::Ship => match content {
            CardContent::Ship { dod_chips, version_tag } => dod_chips@.len() == 0
                && version_tag@ == "email-response"@,
            _ => false,
        },
        CardType::Orient => match content {
            CardContent::Orient { next_tasks } => next_tasks@.len() == 1
                && next_tasks@[0].title@ == "Review: "@ + m.subject@
                && next_tasks@[0].rationale@ == reasoning_of(l, c)
                && next_tasks@[0].urgency_score == 300 && next_tasks@[0].impact_score == 400,
            _ => false,
        },
        _ => match content {
            CardContent::Orient { next_tasks } => next_tasks@.len() == 0,
            _ => false,
        },
    }
}

/// A card made from message `m` of category `c`, but for its fresh ids and time.
pub open spec fn card_for(card: Card, m: GmailMessage, c: EmailCategory) -> bool {
    let l = lower_of(m.snippet@);
    &&& (card.card_type, card.altitude) == card_kind_of(l, c)
    &&& title_ok(card.title@, m.subject@, m.snippet@)
    &&& content_for(card.content, m, card.card_type, c)
    &&& card.actions@ == actions_of(c)
    &&& match card.origin_object {
        Some(o) => o.doc_id@ == "gmail_"@ + m.id@ && opt_chars(o.block_id) == Some(m.thread_id@),
        None => false,
    }
    &&& card.status == CardStatus::Active
    &&& match card.metadata {
        Some(md) => {
            &&& opt_chars(md.email_sender) == Some(sender_name_of(m.sender@))
            &&& opt_chars(md.email_subject) == if m.subject@.len() == 0 { None } else { Some(m.subject@) }
            &&& opt_chars(md.email_date) == if m.date@.len() == 0 { None } else { Some(m.date@) }
            &&& match md.reply_templates {
                Some(v) => texts(v@) == reply_templates_of(l, c),
                None => false,
            }
            &&& opt_chars(md.email_category) == Some(category_name(c))
        },
        None => false,
    }
}

pub open spec fn decline_of(name: Seq<char>, k: nat) -> Seq<char> {
    if k == 0 {
        "Hi "@ + name + ",\n\nThank you for reaching out. After reviewing your proposal, I've determined it's not aligned with our current priorities. We'll keep your information on file should our needs change in the future.\n\nBest regards"@
    } else if k == 1 {
        "Hi "@ + name + ",\n\nI appreciate you thinking of us for this opportunity. At this time, we're not looking to add new vendors/solutions in this area. If our situation changes, we'll be sure to reach out.\n\nThank you for understanding"@
    } else {
        "Dear "@ + name + ",\n\nThank you for your email. We've carefully considered your offering, but it doesn't fit our current roadmap. We wish you the best of luck with other potential clients.\n\nKind regards"@
    }
}

/// The batch actions for a set of low-priority mails.
pub open spec fn batch_actions_of(emails: Seq<(GmailMessage, EmailCategory, bool)>) -> Seq<Seq<char>> {
    let unsub = exists|i: int| 0 <= i < emails.len() && (#[trigger] emails[i]).2;
    let sales = exists|i: int| 0 <= i < emails.len() && (#[trigger] emails[i]).1 == EmailCategory::Sales;
    let news = exists|i: int| 0 <= i < emails.len() && (#[trigger] emails[i]).1 == EmailCategory::Newsletter;
    seq!["archive_all"@]
        + if unsub { seq!["unsubscribe_all"@] } else { Seq::empty() }
        + if sales { seq!["decline_all_sales"@] } else { Seq::empty() }
        + if news { seq!["archive_newsletters"@] } else { Seq::empty() }
}

/// The entry of a batch card for one low-priority mail.
pub open spec fn summary_for(s: EmailSummary, e: (GmailMessage, EmailCategory, bool)) -> bool {
    &&& s.id@ == e.0.id@
    &&& s.sender@ == sender_name_of(e.0.sender@)
    &&& s.subject@ == if e.0.subject@.len() == 0 { e.0.snippet@ } else { e.0.subject@ }
    &&& s.category@ == category_label(e.1)
    &&& s.has_unsubscribe == e.2
    &&& s.snippet@ == e.0.snippet@
}

/// The batch-review card for a set of low-priority mails, but for its id and time.
pub open spec fn batch_card_for(card: Card, emails: Seq<(GmailMessage, EmailCategory, bool)>) -> bool {
    &&& card.card_type == CardType::BatchReview
    &&& card.altitude == Altitude::Orient
    &&& card.title@ == "Batch Review: "@ + decimal_chars(emails.len()) + " Low-Priority Emails"@
    &&& match card.content {
        CardContent::BatchReview { emails: summaries, suggested_actions } => {
            &&& summaries@.len() == emails.len()
            &&& forall|i: int| 0 <= i < emails.len() ==> summary_for(#[trigger] summaries@[i], emails[i])
            &&& texts(suggested_actions@) == batch_actions_of(emails)
        },
        _ => false,
    }
    &&& card.actions@ == seq![CardAction::ProcessBatch, CardAction::ExpandToFlow, CardAction::Park]
    &&& match card.origin_object {
        Some(o) => o.doc_id@ == "gmail_batch"@ && o.block_id is None,
        None => false,
    }
    &&& card.status == CardStatus::Active
    &&& card.metadata is None
}

/// The message goes to the main flow: personal mail, or a warm sales lead.
pub open spec fn is_high(m: GmailMessage) -> bool {
    let l = lower_of(m.snippet@);
    category_of(l) == EmailCategory::Personal
        || (category_of(l) == EmailCategory::Sales && relevant_sales_of(l))
}

pub open spec fn high_of(ms: Seq<GmailMessage>) -> Seq<GmailMessage>
    decreases ms.len(),
{
    if ms.len() == 0 {
        Seq::empty()
    } else if is_high(ms.last()) {
        high_of(ms.drop_last()).push(ms.last())
    } else {
        high_of(ms.drop_last())
    }
}

pub open spec fn low_of(ms: Seq<GmailMessage>) -> Seq<(GmailMessage, EmailCategory, bool)>
    decreases ms.len(),
{
    if ms.len() == 0 {
        Seq::empty()
    } else if is_high(ms.last()) {
        low_of(ms.drop_last())
    } else {
        let m = ms.last();
        let l = lower_of(m.snippet@);
        low_of(ms.drop_last()).push((m, category_of(l), unsubscribe_of(l)))
    }
}

fn copy_message(m: &GmailMessage) -> (r: GmailMessage)
    ensures
        r == *m,
{
    GmailMessage {
        id: m.id.clone(),
        thread_id: m.thread_id.clone(),
        snippet: m.snippet.clone(),
        subject: m.subject.clone(),
        sender: m.sender.clone(),
        date: m.date.clone(),
    }
}

fn push_text(v: &mut Vec<String>, s: &str)
    ensures
        texts(final(v)@) == texts(old(v)@).push(s@),
{
    v.push(String::from_str(s));
    assert(texts(final(v)@) =~= texts(old(v)@).push(s@));
}

fn opt_text(s: &String) -> (r: Option<String>)
    ensures
        opt_chars(r) == if s@.len() == 0 { None } else { Some(s@) },
{
    if s.as_str().is_empty() { None } else { Some(s.clone()) }
}

/// Turns unread mail into cards.
pub struct GmailCardService {}

impl GmailCardService {
    pub fn new() -> GmailCardService {
        GmailCardService {}
    }

    pub fn categorize_email(&self, message: &GmailMessage) -> (r: EmailCategory)
        ensures
            r == category_of(lower_of(message.snippet@)),
    {
        categorize_lowered(&lowercase(message.snippet.as_str()))
    }

    pub fn detect_unsubscribe_link(&self, message: &GmailMessage) -> (r: bool)
        ensures
            r == unsubscribe_of(lower_of(message.snippet@)),
    {
        unsubscribe_lowered(&lowercase(message.snippet.as_str()))
    }

    pub fn is_relevant_sales(&self, message: &GmailMessage) -> (r: bool)
        ensures
            r == relevant_sales_of(lower_of(message.snippet@)),
    {
        relevant_sales_lowered(&lowercase(message.snippet.as_str()))
    }

    pub fn determine_card_type(&self, message: &GmailMessage, category: &EmailCategory) -> (r: (CardType, Altitude))
        ensures
            r == card_kind_of(lower_of(message.snippet@), *category),
    {
        card_kind_lowered(&lowercase(message.snippet.as_str()), *category)
    }

    pub fn get_intent_name(&self, category: &EmailCategory) -> (r: String)
        ensures
            r@ == intent_name_of(*category),
    {
        match category {
            EmailCategory::Personal => String::from_str("Reply to personal email"),
            EmailCategory::Sales => String::from_str("Evaluate sales outreach"),
            EmailCategory::Newsletter => String::from_str("Review newsletter"),
            EmailCategory::Notification => String::from_str("Process notification"),
            EmailCategory::Spam => String::from_str("Review and delete"),
        }
    }

    pub fn determine_actions(&self, card_type: &CardType, category: &EmailCategory) -> (r: Vec<CardAction>)
        ensures
            r@ == actions_of(*category),
    {
        let r = match category {
            EmailCategory::Personal => vec![CardAction::Open, CardAction::GenerateDraft, CardAction::Park],
            EmailCategory::Sales => vec![
                CardAction::DeclineRespectfully,
                CardAction::GenerateDraft,
                CardAction::Open,
                CardAction::Park,
            ],
            _ => vec![CardAction::Open, CardAction::Park],
        };
        assert(r@ =~= actions_of(*category));
        r
    }

    pub fn extract_sender_name(&self, message: &GmailMessage) -> (r: String)
        ensures
            r@ == sender_name_of(message.sender@),
    {
        sender_name(&message.sender)
    }

    pub fn generate_reply_templates(&self, message: &GmailMessage, category: &EmailCategory) -> (r: Vec<String>)
        ensures
            texts(r@) == reply_templates_of(lower_of(message.snippet@), *category),
    {
        reply_templates_lowered(&lowercase(message.snippet.as_str()), *category)
    }

    pub fn get_reasoning(&self, message: &GmailMessage, category: &EmailCategory) -> (r: String)
        ensures
            r@ == reasoning_of(lower_of(message.snippet@), *category),
    {
        reasoning_lowered(&lowercase(message.snippet.as_str()), *category)
    }

    /// A polite refusal addressed to the sender; which of three texts is
    /// chosen by the sum of the code points of the message id.
    pub fn generate_decline_template(&self, message: &GmailMessage) -> (r: String)
        ensures
            r@ == decline_of(sender_name_of(message.sender@), code_sum(message.id@) % 3),
    {
        let name = sender_name(&message.sender);
        let k = code_sum_mod(message.id.as_str(), 3);
        let mut s = if k == 0 || k == 1 { String::from_str("Hi ") } else { String::from_str("Dear ") };
        s.append(name.as_str());
        if k == 0 {
            s.append(",\n\nThank you for reaching out. After reviewing your proposal, I've determined it's not aligned with our current priorities. We'll keep your information on file should our needs change in the future.\n\nBest regards");
        } else if k == 1 {
            s.append(",\n\nI appreciate you thinking of us for this opportunity. At this time, we're not looking to add new vendors/solutions in this area. If our situation changes, we'll be sure to reach out.\n\nThank you for understanding");
        } else {
            s.append(",\n\nThank you for your email. We've carefully considered your offering, but it doesn't fit our current roadmap. We wish you the best of luck with other potential clients.\n\nKind regards");
        }
        s
    }

    /// The intent of a do-now card for the message, with a fresh id.
    pub fn create_intent(&self, message: &GmailMessage, category: &EmailCategory) -> (r: Intent)
        ensures
            intent_for(r, *message, *category),
            r.description@.len() >= 14,
            r.description@.subrange(0, 14) == "Handle email: "@,
            title_ok(r.description@.subrange(14, r.description@.len() as int), message.subject@, message.snippet@),
    {
        let intent_type = match category {
            EmailCategory::Personal => IntentType::Operate,
            EmailCategory::Sales => IntentType::Decide,
            _ => IntentType::Search,
        };
        let title = self.extract_title(message, category);
        let mut description = String::from_str("Handle email: ");
        description.append(title.as_str());
        proof {
            reveal_strlit("Handle email: ");
            assert(description@.subrange(0, 14) =~= "Handle email: "@);
            assert(description@.subrange(14, description@.len() as int) =~= title@);
        }
        Intent {
            id: fresh_id(),
            name: self.get_intent_name(category),
            description,
            intent_type,
            rationale: self.get_reasoning(message, category),
            preconditions: Vec::new(),
            estimated_tokens: 100,
            created_at: now_seconds(),
        }
    }

    /// The payload of a card of type `card_type` for the message.
    pub fn create_card_content(&self, message: &GmailMessage, card_type: &CardType, category: &EmailCategory) -> (r: CardContent)
        ensures
            content_for(r, *message, *card_type, *category),
    {
        match card_type {
            CardType::BreakIn => CardContent::BreakIn {
                source: String::from_str("Gmail"),
                message: message.snippet.clone(),
                sender: self.extract_sender_name(message),
                urgency: BreakInUrgency::High,
            },
            CardType::DoNow => {
                let mut intent = self.create_intent(message, category);
                let sender = self.extract_sender_name(message);
                let mut description = String::from_str("From: ");
                description.append(sender.as_str());
                description.append("\nSubject: ");
                description.append(message.subject.as_str());
                description.append("\n\n");
                description.append(message.snippet.as_str());
                intent.description = description;
                CardContent::DoNow { intent, preview: message.snippet.clone(), diff: None }
            },
            CardType::Ship => CardContent::Ship {
                dod_chips: Vec::new(),
                version_tag: String::from_str("email-response"),
            },
            CardType::Orient => {
                let mut title = String::from_str("Review: ");
                title.append(message.subject.as_str());
                let task = NextTask {
                    id: fresh_id(),
                    title,
                    rationale: self.get_reasoning(message, category),
                    urgency_score: 300,
                    impact_score: 400,
                };
                CardContent::Orient { next_tasks: vec![task] }
            },
            _ => CardContent::Orient { next_tasks: Vec::new() },
        }
    }

    /// A card for the message, with a fresh id and the current time.
    pub fn convert_to_card(&self, message: GmailMessage, category: &EmailCategory) -> (r: Card)
        ensures
            card_for(r, message, *category),
    {
        let (card_type, altitude) = self.determine_card_type(&message, category);
        let title = self.extract_title(&message, category);
        let content = self.create_card_content(&message, &card_type, category);
        let actions = self.determine_actions(&card_type, category);
        let reply_templates = self.generate_reply_templates(&message, category);
        let mut doc_id = String::from_str("gmail_");
        doc_id.append(message.id.as_str());
        let category_text = match category {
            EmailCategory::Personal => String::from_str("Personal"),
            EmailCategory::Sales => String::from_str("Sales"),
            EmailCategory::Newsletter => String::from_str("Newsletter"),
            EmailCategory::Notification => String::from_str("Notification"),
            EmailCategory::Spam => String::from_str("Spam"),
        };
        let metadata = CardMetadata {
            email_sender: Some(self.extract_sender_name(&message)),
            email_subject: opt_text(&message.subject),
            email_date: opt_text(&message.date),
            reply_templates: Some(reply_templates),
            email_category: Some(category_text),
        };
        Card {
            id: fresh_id(),
            card_type,
            altitude,
            title,
            content,
            actions,
            origin_object: Some(OriginObject { doc_id, block_id: Some(message.thread_id.clone()) }),
            created_at: now_seconds(),
            status: CardStatus::Active,
            metadata: Some(metadata),
        }
    }

    /// The actions offered for a batch of low-priority mails.
    pub fn get_batch_actions(&self, emails: &Vec<(GmailMessage, EmailCategory, bool)>) -> (r: Vec<String>)
        ensures
            texts(r@) == batch_actions_of(emails@),
    {
        let mut unsub = false;
        let mut sales = false;
        let mut news = false;
        let mut i: usize = 0;
        while i < emails.len()
            invariant
                i <= emails@.len(),
                unsub == exists|j: int| 0 <= j < i && (#[trigger] emails@[j]).2,
                sales == exists|j: int| 0 <= j < i && (#[trigger] emails@[j]).1 == EmailCategory::Sales,
                news == exists|j: int| 0 <= j < i && (#[trigger] emails@[j]).1 == EmailCategory::Newsletter,
            decreases emails@.len() - i,
        {
            let e = &emails[i];
            if e.2 {
                unsub = true;
            }
            match e.1 {
                EmailCategory::Sales => {
                    sales = true;
                },
                EmailCategory::Newsletter => {
                    news = true;
                },
                _ => {},
            }
            i = i + 1;
        }
        let mut actions: Vec<String> = Vec::new();
        push_text(&mut actions, "archive_all");
        if unsub {
            push_text(&mut actions, "unsubscribe_all");
        }
        if sales {
            push_text(&mut actions, "decline_all_sales");
        }
        if news {
            push_text(&mut actions, "archive_newsletters");
        }
        assert(texts(actions@) =~= batch_actions_of(emails@));
        actions
    }

    /// One card that lists the low-priority mails for review in bulk.
    pub fn create_enhanced_batch_card(&self, emails: Vec<(GmailMessage, EmailCategory, bool)>) -> (r: Card)
        requires
            emails@.len() <= u64::MAX,
        ensures
            batch_card_for(r, emails@),
    {
        let mut summaries: Vec<EmailSummary> = Vec::new();
        let mut i: usize = 0;
        while i < emails.len()
            invariant
                i <= emails@.len(),
                summaries@.len() == i,
                forall|j: int| 0 <= j < i ==> summary_for(#[trigger] summaries@[j], emails@[j]),
            decreases emails@.len() - i,
        {
            let e = &emails[i];
            let msg = &e.0;
            let subject = if msg.subject.as_str().is_empty() { msg.snippet.clone() } else { msg.subject.clone() };
            let category = match e.1 {
                EmailCategory::Personal => String::from_str("personal"),
                EmailCategory::Sales => String::from_str("sales"),
                EmailCategory::Newsletter => String::from_str("newsletter"),
                EmailCategory::Notification => String::from_str("notification"),
                EmailCategory::Spam => String::from_str("spam"),
            };
            summaries.push(EmailSummary {
                id: msg.id.clone(),
                sender: self.extract_sender_name(msg),
                subject,
                category,
                has_unsubscribe: e.2,
                snippet: msg.snippet.clone(),
            });
            i = i + 1;
        }
        let suggested_actions = self.get_batch_actions(&emails);
        let mut title = String::from_str("Batch Review: ");
        let count = decimal_text(emails.len() as u64);
        title.append(count.as_str());
        title.append(" Low-Priority Emails");
        let actions = vec![CardAction::ProcessBatch, CardAction::ExpandToFlow, CardAction::Park];
        assert(actions@ =~= seq![CardAction::ProcessBatch, CardAction::ExpandToFlow, CardAction::Park]);
        Card {
            id: fresh_id(),
            card_type: CardType::BatchReview,
            altitude: Altitude::Orient,
            title,
            content: CardContent::BatchReview { emails: summaries, suggested_actions },
            actions,
            origin_object: Some(OriginObject { doc_id: String::from_str("gmail_batch"), block_id: None }),
            created_at: now_seconds(),
            status: CardStatus::Active,
            metadata: None,
        }
    }

    /// Sorts unread mail: personal mail and warm sales leads each become a
    /// card, in order; the rest, if any, go into one batch-review card at the end.
    pub fn cards_from_messages(&self, messages: Vec<GmailMessage>) -> (r: Vec<Card>)
        requires
            messages@.len() <= u64::MAX,
        ensures
            r@.len() == high_of(messages@).len() + if low_of(messages@).len() > 0 { 1int } else { 0int },
            forall|i: int| 0 <= i < high_of(messages@).len() ==> card_for(
                #[trigger] r@[i],
                high_of(messages@)[i],
                category_of(lower_of(high_of(messages@)[i].snippet@)),
            ),
            low_of(messages@).len() > 0 ==> batch_card_for(r@.last(), low_of(messages@)),
    {
        let mut cards: Vec<Card> = Vec::new();
        let mut low: Vec<(GmailMessage, EmailCategory, bool)> = Vec::new();
        let mut i: usize = 0;
        while i < messages.len()
            invariant
                i <= messages@.len(),
                messages@.len() <= u64::MAX,
                cards@.len() == high_of(messages@.subrange(0, i as int)).len(),
                forall|j: int| 0 <= j < cards@.len() ==> card_for(
                    #[trigger] cards@[j],
                    high_of(messages@.subrange(0, i as int))[j],
                    category_of(lower_of(high_of(messages@.subrange(0, i as int))[j].snippet@)),
                ),
                low@ == low_of(messages@.subrange(0, i as int)),
                low@.len() <= i,
            decreases messages@.len() - i,
        {
            let ghost pre = messages@.subrange(0, i as int);
            let ghost next = messages@.subrange(0, i as int + 1);
            assert(next.drop_last() =~= pre);
            let msg = &messages[i];
            let category = self.categorize_email(msg);
            let has_unsubscribe = self.detect_unsubscribe_link(msg);
            let high = match category {
                EmailCategory::Personal => true,
                EmailCategory::Sales => self.is_relevant_sales(msg),
                _ => false,
            };
            if high {
                let card = self.convert_to_card(copy_message(msg), &category);
                cards.push(card);
                proof {
                    assert forall|j: int| 0 <= j < cards@.len() implies card_for(
                        #[trigger] cards@[j],
                        high_of(next)[j],
                        category_of(lower_of(high_of(next)[j].snippet@)),
                    ) by {
                        if j < cards@.len() - 1 {
                            assert(high_of(next)[j] == high_of(pre)[j]);
                        }
                    }
                }
            } else {
                low.push((copy_message(msg), category, has_unsubscribe));
            }
            i = i + 1;
        }
        assert(messages@.subrange(0, messages@.len() as int) =~= messages@);
        if low.len() > 0 {
            let batch = self.create_enhanced_batch_card(low);
            cards.push(batch);
            proof {
                assert forall|j: int| 0 <= j < high_of(messages@).len() implies card_for(
                    #[trigger] cards@[j],
                    high_of(messages@)[j],
                    category_of(lower_of(high_of(messages@)[j].snippet@)),
                ) by {
                    assert(cards@[j] == cards@.drop_last()[j]);
                }
            }
        }
        cards
    }

    /// One orient card that lists cards for review, each as a low-urgency task.
    pub fn create_batch_review_card(&self, emails: Vec<Card>) -> (r: Card)
        requires
            emails@.len() <= u64::MAX,
        ensures
            r.card_type == CardType::Orient,
            r.altitude == Altitude::Orient,
            r.title@ == "Review "@ + decimal_chars(emails@.len()) + " low-priority emails"@,
            match r.content {
                CardContent::Orient { next_tasks } => {
                    &&& next_tasks@.len() == emails@.len()
                    &&& forall|i: int| 0 <= i < emails@.len() ==> {
                        let t = #[trigger] next_tasks@[i];
                        &&& t.id == emails@[i].id
                        &&& t.title == emails@[i].title
                        &&& t.rationale@ == "Low-priority email for batch review"@
                        &&& t.urgency_score == 200
                        &&& t.impact_score == 300
                    }
                },
                _ => false,
            },
            r.actions@ == seq![CardAction::Open, CardAction::Park],
            r.origin_object is None,
            r.status == CardStatus::Active,
            r.metadata is None,
    {
        let mut title = String::from_str("Review ");
        let count = decimal_text(emails.len() as u64);
        title.append(count.as_str());
        title.append(" low-priority emails");
        let mut next_tasks: Vec<NextTask> = Vec::new();
        let mut i: usize = 0;
        while i < emails.len()
            invariant
                i <= emails@.len(),
                next_tasks@.len() == i,
                forall|j: int| 0 <= j < i ==> {
                    let t = #[trigger] next_tasks@[j];
                    &&& t.id == emails@[j].id
                    &&& t.title == emails@[j].title
                    &&& t.rationale@ == "Low-priority email for batch review"@
                    &&& t.urgency_score == 200
                    &&& t.impact_score == 300
                },
            decreases emails@.len() - i,
        {
            next_tasks.push(NextTask {
                id: emails[i].id,
                title: emails[i].title.clone(),
                rationale: String::from_str("Low-priority email for batch review"),
                urgency_score: 200,
                impact_score: 300,
            });
            i = i + 1;
        }
        let actions = vec![CardAction::Open, CardAction::Park];
        assert(actions@ =~= seq![CardAction::Open, CardAction::Park]);
        Card {
            id: fresh_id(),
            card_type: CardType::Orient,
            altitude: Altitude::Orient,
            title,
            content: CardContent::Orient { next_tasks },
            actions,
            origin_object: None,
            created_at: now_seconds(),
            status: CardStatus::Active,
            metadata: None,
        }
    }

    pub fn extract_title(&self, message: &GmailMessage, category: &EmailCategory) -> (r: String)
        ensures
            title_ok(r@, message.subject@, message.snippet@),
    {
        if !message.subject.as_str().is_empty() {
            return message.subject.clone();
        }
        let snippet = message.snippet.as_str();
        if snippet.as_bytes().len() > 77 {
            let ghost b = snippet.spec_bytes();
            let mut end: usize = 74;
            while !snippet.is_char_boundary(end) && end > 0
                invariant
                    end <= 74,
                    b == snippet.spec_bytes(),
                    b.len() > 77,
                    boundary_at_or_below(b, end as nat) == boundary_at_or_below(b, 74),
                decreases end,
            {
                end = end - 1;
            }
            proof {
                vstd::utf8::encode_utf8_valid_utf8(snippet@);
                vstd::utf8::is_char_boundary_start_end_of_seq(b);
                assert(boundary_at_or_below(b, end as nat) == end);
            }
            let (left, _) = snippet.split_at(end);
            assert(encode_utf8(left@) == b.subrange(0, end as int));
            let mut t = String::from_str(left);
            t.append("...");
            proof {
                reveal_strlit("...");
                assert(t@.subrange(0, t@.len() - 3) =~= left@);
                assert(t@.subrange(t@.len() - 3, t@.len() as int) =~= "..."@);
            }
            t
        } else {
            message.snippet.clone()
        }
    }
}

} // verus!
