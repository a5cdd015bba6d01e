//! The chat connector's shape, and the checks made on its inbound events.

use vstd::prelude::*;
use vstd::string::StringSliceAdditionalSpecFns;
use crate::card::BreakInUrgency;
use crate::mail::has;
use crate::text::{contains_seq, lower_of, lowercase, opt_chars, same_text, text_contains};

verus! {

#[derive(Clone, Debug)]
pub struct SlackMessage {
    pub id: String,
    pub channel: String,
    pub user: String,
    pub text: String,
    pub timestamp: String,
}

/// A source of chat messages that can also hold drafts.
pub trait SlackConnector {
    fn read_dms(&self) -> Result<Vec<SlackMessage>, String>;

    fn read_channel(&self, channel_id: &str) -> Result<Vec<SlackMessage>, String>;

    fn draft_message(&self, channel_id: &str, text: &str) -> Result<String, String>;
}

/// A connector that reads nothing yet and drafts without sending.
pub struct MCPSlackConnector {}

impl MCPSlackConnector {
    pub fn new() -> MCPSlackConnector {
        MCPSlackConnector {}
    }
}

impl SlackConnector for MCPSlackConnector {
    fn read_dms(&self) -> (r: Result<Vec<SlackMessage>, String>)
        ensures
            r matches Ok(v) && v@.len() == 0,
    {
        Ok(Vec::new())
    }

    fn read_channel(&self, channel_id: &str) -> (r: Result<Vec<SlackMessage>, String>)
        ensures
            r matches Ok(v) && v@.len() == 0,
    {
        Ok(Vec::new())
    }

    fn draft_message(&self, channel_id: &str, text: &str) -> (r: Result<String, String>)
        ensures
            r matches Ok(d) && d@ == "Draft: "@ + text@,
    {
        let mut s = String::from_str("Draft: ");
        s.append(text);
        Ok(s)
    }
}

/// The lower-case hex digit of a value below 16.
pub open spec fn hex_digit(v: u8) -> char {
    if v < 10 {
        ((v + 48) as u8) as char
    } else {
        ((v + 87) as u8) as char
    }
}

/// Two lower-case hex digits per byte, high nibble first.
pub open spec fn hex_of(b: Seq<u8>) -> Seq<char>
    decreases b.len(),
{
    if b.len() == 0 {
        Seq::empty()
    } else {
        hex_of(b.drop_last()) + seq![hex_digit(b.last() / 16), hex_digit(b.last() % 16)]
    }
}

/// The HMAC-SHA256 tag of `message` under `key`, as the `hmac` and `sha2`
/// crates compute it.
pub uninterp spec fn hmac_sha256_of(key: Seq<u8>, message: Seq<u8>) -> Seq<u8>;

/// Relies on `hmac::Hmac<sha2::Sha256>`: `new_from_slice` accepts a key of
/// any length, and the finalized tag is 32 bytes that depend on the key and
/// the message alone.
#[verifier::external_body]
fn hmac_sha256(key: &[u8], message: &[u8]) -> (r: Vec<u8>)
    ensures
        r@ == hmac_sha256_of(key@, message@),
        r@.len() == 32,
{
    let mut mac = <hmac::Hmac<sha2::Sha256> as hmac::Mac>::new_from_slice(key).unwrap();
    hmac::Mac::update(&mut mac, message);
    hmac::Mac::finalize(mac).into_bytes().to_vec()
}

/// Relies on `hex::encode`: two lower-case hex digits per byte, in order.
#[verifier::external_body]
fn hex_text(b: &[u8]) -> (r: String)
    ensures
        r@ == hex_of(b@),
{
    hex::encode(b)
}

/// Compares the bytes of two texts, looking at every byte whatever the
/// earlier ones were.
pub fn subtle_eq(a: &str, b: &str) -> (r: bool)
    ensures
        r == (a.spec_bytes() == b.spec_bytes()),
{
    let x = a.as_bytes();
    let y = b.as_bytes();
    if x.len() != y.len() {
        return false;
    }
    let mut diff: u8 = 0;
    let mut i: usize = 0;
    while i < x.len()
        invariant
            x@ == a.spec_bytes(),
            y@ == b.spec_bytes(),
            x@.len() == y@.len(),
            i <= x@.len(),
            (diff == 0) == (forall|j: int| 0 <= j < i ==> x@[j] == y@[j]),
        decreases x@.len() - i,
    {
        let p = x[i];
        let q = y[i];
        let d = diff;
        assert((d | (p ^ q)) == 0u8 <==> (d == 0u8 && p == q)) by (bit_vector);
        diff = diff | (p ^ q);
        i = i + 1;
    }
    assert(diff == 0 ==> x@ =~= y@);
    diff == 0
}

/// The signed base string of an inbound event.
pub open spec fn signature_base(timestamp: Seq<char>, body: Seq<char>) -> Seq<char> {
    "v0:"@ + timestamp + ":"@ + body
}

/// Checks the signature of an inbound event: the empty timestamp or
/// signature fails; otherwise the signature must be `v0=` and the hex HMAC-SHA256
/// of the base string under the signing secret.
pub fn verify_signature(secret: &str, timestamp: &str, body: &str, signature: &str) -> (r: bool)
    ensures
        r == (timestamp@.len() > 0 && signature@.len() > 0
            && signature.spec_bytes() == vstd::utf8::encode_utf8(
                "v0="@ + hex_of(hmac_sha256_of(secret.spec_bytes(), vstd::utf8::encode_utf8(signature_base(timestamp@, body@)))),
            )),
{
    if timestamp.is_empty() || signature.is_empty() {
        return false;
    }
    let mut base = String::from_str("v0:");
    base.append(timestamp);
    base.append(":");
    base.append(body);
    let tag = hmac_sha256(secret.as_bytes(), base.as_str().as_bytes());
    let hash = hex_text(tag.as_slice());
    let mut expected = String::from_str("v0=");
    expected.append(hash.as_str());
    subtle_eq(expected.as_str(), signature)
}

/// The urgency of a direct message, on its lower-cased text.
pub open spec fn dm_urgency_of(l: Seq<char>) -> BreakInUrgency {
    if has(l, "urgent"@) || has(l, "now"@) {
        BreakInUrgency::High
    } else {
        BreakInUrgency::Medium
    }
}

/// A direct message that says "urgent" or "now", in any case, is urgent.
pub fn dm_urgency(text: &str) -> (r: BreakInUrgency)
    ensures
        r == dm_urgency_of(lower_of(text@)),
{
    let l = lowercase(text);
    if text_contains(l.as_str(), "urgent") || text_contains(l.as_str(), "now") {
        BreakInUrgency::High
    } else {
        BreakInUrgency::Medium
    }
}

/// The channel where one is given, else the fallback.
pub fn ch_or<'a>(fallback: &'a str, ch: Option<&'a str>) -> (r: &'a str)
    ensures
        r == match ch {
            Some(c) => c,
            None => fallback,
        },
{
    match ch {
        Some(c) => c,
        None => fallback,
    }
}

/// The fields of an inbound chat event that the rules read.
#[derive(Clone, Debug)]
pub struct SlackEvent {
    pub event_type: String,
    pub channel: Option<String>,
    pub channel_type: Option<String>,
    pub user: Option<String>,
    pub text: Option<String>,
    pub ts: Option<String>,
    pub thread_ts: Option<String>,
}

/// What an inbound chat event sets off.
#[derive(Clone, Debug)]
pub enum SlackSignal {
    /// The card with this id is to wake.
    WakeFire { card_id: String },
    /// A direct message that breaks into the feed.
    BreakIn { ts: String, source: String, message: String, sender: String, urgency: BreakInUrgency },
}

/// The pattern of a UUID written in hex groups of 8-4-4-4-12.
pub const UUID_PATTERN: &'static str = "[0-9a-fA-F]{8}-[0-9a-fA-F]{4}-[0-9a-fA-F]{4}-[0-9a-fA-F]{4}-[0-9a-fA-F]{12}";

pub open spec fn is_hex_char(c: char) -> bool {
    ('0' <= c && c <= '9') || ('a' <= c && c <= 'f') || ('A' <= c && c <= 'F')
}

/// A UUID starts at `i`: 36 characters, hex digits in groups of 8-4-4-4-12
/// split by hyphens.
pub open spec fn uuid_at(t: Seq<char>, i: int) -> bool {
    &&& 0 <= i
    &&& i + 36 <= t.len()
    &&& forall|j: int| 0 <= j < 36 ==> if j == 8 || j == 13 || j == 18 || j == 23 {
        #[trigger] t[i + j] == '-'
    } else {
        is_hex_char(t[i + j])
    }
}

/// The leftmost UUID in `t` at or after position `i`.
pub open spec fn first_uuid_from(t: Seq<char>, i: int) -> Option<Seq<char>>
    decreases t.len() - i,
{
    if i < 0 || i + 36 > t.len() {
        None
    } else if uuid_at(t, i) {
        Some(t.subrange(i, i + 36))
    } else {
        first_uuid_from(t, i + 1)
    }
}

/// The first match of `pattern` in `text`, as `regex::Regex::find` gives it;
/// `None` where there is none or the pattern does not compile.
pub uninterp spec fn regex_find_of(pattern: Seq<char>, text: Seq<char>) -> Option<Seq<char>>;

/// Relies on `regex::Regex::new` and `Regex::find`: the leftmost-first match
/// of the pattern, a part of the text; nothing where the pattern is invalid.
/// For the UUID pattern, whose matches all have 36 characters, that is the
/// leftmost window of the UUID shape.
#[verifier::external_body]
fn regex_find(pattern: &str, text: &str) -> (r: Option<String>)
    ensures
        opt_chars(r) == regex_find_of(pattern@, text@),
        pattern@ == UUID_PATTERN@ ==> opt_chars(r) == first_uuid_from(text@, 0),
        match r {
            Some(m) => contains_seq(text@, m@),
            None => true,
        },
{
    match regex::Regex::new(pattern) {
        Ok(re) => re.find(text).map(|m| m.as_str().to_string()),
        Err(_) => None,
    }
}

/// The first UUID written in a text.
pub fn extract_uuid_from_text(text: &str) -> (r: Option<String>)
    ensures
        opt_chars(r) == first_uuid_from(text@, 0),
{
    regex_find(UUID_PATTERN, text)
}

/// How the chat webhook answers a delivery.
#[derive(Clone, Debug)]
pub enum WebhookReply {
    /// No signing secret is configured.
    Unavailable,
    /// A URL verification: echo the challenge.
    Challenge(String),
    /// The signature does not match.
    Unauthorized,
    /// The event is taken; its signals are to be acted on.
    Accepted,
}

/// The signature is accepted: the development secret skips the check.
pub open spec fn signature_accepted(secret: Seq<char>, timestamp: &str, body: &str, signature: &str) -> bool {
    secret == "dev-skip"@ || (timestamp@.len() > 0 && signature@.len() > 0
        && signature.spec_bytes() == vstd::utf8::encode_utf8(
            "v0="@ + hex_of(hmac_sha256_of(vstd::utf8::encode_utf8(secret), vstd::utf8::encode_utf8(signature_base(timestamp@, body@)))),
        ))
}

/// Decides how the webhook answers: no secret makes it unavailable; a URL
/// verification is answered with its challenge; otherwise the signature
/// decides between accepting and refusing. Only an accepted event is acted on.
pub fn webhook_reply(secret: Option<&str>, challenge: Option<String>, timestamp: &str, body: &str, signature: &str) -> (r: WebhookReply)
    ensures
        match secret {
            None => r is Unavailable,
            Some(k) => match challenge {
                Some(c) => r matches WebhookReply::Challenge(x) && x@ == c@,
                None => if signature_accepted(k@, timestamp, body, signature) {
                    r is Accepted
                } else {
                    r is Unauthorized
                },
            },
        },
{
    let k = match secret {
        None => {
            return WebhookReply::Unavailable;
        },
        Some(k) => k,
    };
    if let Some(c) = challenge {
        return WebhookReply::Challenge(c);
    }
    if same_text(k, "dev-skip") || verify_signature(k, timestamp, body, signature) {
        WebhookReply::Accepted
    } else {
        WebhookReply::Unauthorized
    }
}

/// A signal as plain character sequences.
pub enum SignalView {
    WakeFire(Seq<char>),
    BreakIn { ts: Seq<char>, source: Seq<char>, message: Seq<char>, sender: Seq<char>, urgency: BreakInUrgency },
}

pub open spec fn signal_view(s: SlackSignal) -> SignalView {
    match s {
        SlackSignal::WakeFire { card_id } => SignalView::WakeFire(card_id@),
        SlackSignal::BreakIn { ts, source, message, sender, urgency } => SignalView::BreakIn {
            ts: ts@,
            source: source@,
            message: message@,
            sender: sender@,
            urgency,
        },
    }
}

pub open spec fn text_or(o: Option<String>, fallback: Seq<char>) -> Seq<char> {
    match o {
        Some(s) => s@,
        None => fallback,
    }
}

/// The thread a message event belongs to, as (channel, thread timestamp or
/// else the message's own timestamp); nothing for other events.
pub open spec fn thread_key_of(e: SlackEvent) -> Option<(Seq<char>, Seq<char>)> {
    if e.event_type@ == "message"@ {
        match (e.channel, e.thread_ts, e.ts) {
            (Some(c), Some(t), _) => Some((c@, t@)),
            (Some(c), None, Some(t)) => Some((c@, t@)),
            _ => None,
        }
    } else {
        None
    }
}

/// What a message event sets off, given the card mapped to its thread, if
/// any: a wake for that card; a break-in for a direct message; a wake for a
/// card whose id the text names. Other events set off nothing.
pub open spec fn signals_of(e: SlackEvent, mapped: Option<Seq<char>>) -> Seq<SignalView> {
    if e.event_type@ != "message"@ {
        Seq::empty()
    } else {
        (match mapped {
            Some(id) => if thread_key_of(e) is Some { seq![SignalView::WakeFire(id)] } else { Seq::empty() },
            None => Seq::empty(),
        }) + (match (e.channel_type, e.text) {
            (Some(k), Some(t)) => if k@ == "im"@ {
                seq![SignalView::BreakIn {
                    ts: text_or(e.ts, "ts"@),
                    source: text_or(e.channel, "slack:dm"@),
                    message: t@,
                    sender: text_or(e.user, "unknown"@),
                    urgency: dm_urgency_of(lower_of(t@)),
                }]
            } else {
                Seq::empty()
            },
            _ => Seq::empty(),
        }) + (match e.text {
            Some(t) => match first_uuid_from(t@, 0) {
                Some(id) => seq![SignalView::WakeFire(id)],
                None => Seq::empty(),
            },
            None => Seq::empty(),
        })
    }
}

pub open spec fn views(v: Seq<SlackSignal>) -> Seq<SignalView> {
    v.map_values(|s: SlackSignal| signal_view(s))
}

fn text_or_default(o: &Option<String>, fallback: &str) -> (r: String)
    ensures
        r@ == text_or(*o, fallback@),
{
    match o {
        Some(s) => s.clone(),
        None => String::from_str(fallback),
    }
}

/// The thread to look up for a message event.
pub fn thread_key(event: &SlackEvent) -> (r: Option<(String, String)>)
    ensures
        match r {
            Some((c, t)) => thread_key_of(*event) == Some((c@, t@)),
            None => thread_key_of(*event) is None,
        },
{
    if !same_text(event.event_type.as_str(), "message") {
        return None;
    }
    match (&event.channel, &event.thread_ts, &event.ts) {
        (Some(c), Some(t), _) => Some((c.clone(), t.clone())),
        (Some(c), None, Some(t)) => Some((c.clone(), t.clone())),
        _ => None,
    }
}

fn push_signal(v: &mut Vec<SlackSignal>, s: SlackSignal)
    ensures
        views(final(v)@) == views(old(v)@).push(signal_view(s)),
{
    v.push(s);
    assert(views(final(v)@) =~= views(old(v)@).push(signal_view(s)));
}

/// The signals a chat event sets off, given what the thread store mapped
/// its thread to.
pub fn slack_signals(event: &SlackEvent, mapped: Option<String>) -> (r: Vec<SlackSignal>)
    ensures
        views(r@) == signals_of(*event, opt_chars(mapped)),
{
    let mut out: Vec<SlackSignal> = Vec::new();
    if !same_text(event.event_type.as_str(), "message") {
        assert(views(out@) =~= Seq::<SignalView>::empty());
        return out;
    }
    let ghost e = *event;
    let ghost first: Seq<SignalView> = match opt_chars(mapped) {
        Some(id) => if thread_key_of(e) is Some { seq![SignalView::WakeFire(id)] } else { Seq::empty() },
        None => Seq::empty(),
    };
    if let Some(id) = mapped {
        if thread_key(event).is_some() {
            push_signal(&mut out, SlackSignal::WakeFire { card_id: id });
        }
    }
    assert(views(out@) =~= first);
    let ghost second: Seq<SignalView> = match (e.channel_type, e.text) {
        (Some(k), Some(t)) => if k@ == "im"@ {
            seq![SignalView::BreakIn {
                ts: text_or(e.ts, "ts"@),
                source: text_or(e.channel, "slack:dm"@),
                message: t@,
                sender: text_or(e.user, "unknown"@),
                urgency: dm_urgency_of(lower_of(t@)),
            }]
        } else {
            Seq::empty()
        },
        _ => Seq::empty(),
    };
    match (&event.channel_type, &event.text) {
        (Some(k), Some(t)) => {
            if same_text(k.as_str(), "im") {
                let signal = SlackSignal::BreakIn {
                    ts: text_or_default(&event.ts, "ts"),
                    source: text_or_default(&event.channel, "slack:dm"),
                    message: t.clone(),
                    sender: text_or_default(&event.user, "unknown"),
                    urgency: dm_urgency(t.as_str()),
                };
                push_signal(&mut out, signal);
            }
        },
        _ => {},
    }
    assert(views(out@) =~= first + second);
    if let Some(t) = &event.text {
        if let Some(id) = extract_uuid_from_text(t.as_str()) {
            push_signal(&mut out, SlackSignal::WakeFire { card_id: id });
        }
    }
    assert(views(out@) =~= signals_of(*event, opt_chars(mapped)));
    out
}

} // verus!
