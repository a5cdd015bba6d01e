//! The parking scheduler: cards deferred until a wake time, woken at most once
//! per park cycle.

use vstd::prelude::*;
use crate::card::{Altitude, Card, CardContent, CardStatus, CardType, Duplicate};

verus! {

/// What wakes a parked card.
#[derive(Clone, Debug)]
pub enum WakeCondition {
    Time(i64),
    Event(String),
    MemoryChange(String),
}

/// A listing of one parked card.
#[derive(Clone, Debug)]
pub struct ParkedItem {
    pub id: u128,
    pub title: String,
    pub wake_time: i64,
    pub altitude: Altitude,
    pub origin_card_id: u128,
    pub context: Option<String>,
    pub wake_conditions: Vec<WakeCondition>,
}

/// A tracked card: its parked form, when it wakes, why it was parked, and
/// the type and payload it had before.
#[derive(Clone, Debug)]
pub struct ParkedEntry {
    pub card: Card,
    pub wake_time: i64,
    pub reason: String,
    pub original_type: CardType,
    pub original_content: CardContent,
}

#[derive(Clone, Copy, Debug, PartialEq, Eq, Structural)]
pub enum ParkingError {
    /// The id is not parked.
    NotFound,
    /// The shifted wake time does not fit in the clock's range.
    OutOfRange,
}

pub open spec fn key(e: ParkedEntry) -> u128 {
    e.card.id
}

pub open spec fn tracks(s: Seq<ParkedEntry>, id: u128) -> bool {
    exists|i: int| 0 <= i < s.len() && #[trigger] key(s[i]) == id
}

pub open spec fn find(s: Seq<ParkedEntry>, id: u128) -> int {
    choose|i: int| 0 <= i < s.len() && #[trigger] key(s[i]) == id
}

/// Every id is tracked at most once, and each entry holds the parked form of
/// its card: parked status, parked type, and a payload naming the card, the
/// wake time and the reason.
pub open spec fn entries_wf(s: Seq<ParkedEntry>) -> bool {
    &&& forall|i: int, j: int| 0 <= i < s.len() && 0 <= j < s.len() && i != j
        ==> key(#[trigger] s[i]) != key(#[trigger] s[j])
    &&& forall|i: int| 0 <= i < s.len() ==> entry_wf(#[trigger] s[i])
}

pub open spec fn entry_wf(e: ParkedEntry) -> bool {
    &&& e.card.status == CardStatus::Parked
    &&& e.card.card_type == CardType::Parked
    &&& e.card.content == (CardContent::Parked {
        original_card_id: e.card.id,
        wake_time: e.wake_time,
        wake_reason: e.reason,
    })
}

/// The entry that parking `card` until `wake_time` creates.
pub open spec fn parked_entry(card: Card, wake_time: i64, reason: String) -> ParkedEntry {
    ParkedEntry {
        card: Card {
            status: CardStatus::Parked,
            card_type: CardType::Parked,
            content: CardContent::Parked { original_card_id: card.id, wake_time, wake_reason: reason },
            ..card
        },
        wake_time,
        reason,
        original_type: card.card_type,
        original_content: card.content,
    }
}

/// The card an entry gives back on waking: active again, with the type and
/// payload it had before it was parked.
pub open spec fn restored(e: ParkedEntry) -> Card {
    Card {
        status: CardStatus::Active,
        card_type: e.original_type,
        content: e.original_content,
        ..e.card
    }
}

/// The entries without the one for `id`.
pub open spec fn without(s: Seq<ParkedEntry>, id: u128) -> Seq<ParkedEntry> {
    if tracks(s, id) {
        s.remove(find(s, id))
    } else {
        s
    }
}

/// The entries after a park: any earlier entry for the id is replaced, and
/// the new one comes last.
pub open spec fn park_spec(s: Seq<ParkedEntry>, card: Card, wake_time: i64, reason: String) -> Seq<ParkedEntry> {
    without(s, card.id).push(parked_entry(card, wake_time, reason))
}

/// What unparking `id` returns.
pub open spec fn unpark_result(s: Seq<ParkedEntry>, id: u128) -> Option<Card> {
    if tracks(s, id) {
        Some(restored(s[find(s, id)]))
    } else {
        None
    }
}

/// The entry with its wake time moved to `t`, in the entry and in its payload.
pub open spec fn rescheduled(e: ParkedEntry, t: i64) -> ParkedEntry {
    ParkedEntry {
        wake_time: t,
        card: Card {
            content: CardContent::Parked { original_card_id: e.card.id, wake_time: t, wake_reason: e.reason },
            ..e.card
        },
        ..e
    }
}

/// The entries still asleep at `now`, in order.
pub open spec fn asleep(s: Seq<ParkedEntry>, now: i64) -> Seq<ParkedEntry>
    decreases s.len(),
{
    if s.len() == 0 {
        s
    } else if s.last().wake_time > now {
        asleep(s.drop_last(), now).push(s.last())
    } else {
        asleep(s.drop_last(), now)
    }
}

/// The cards due at `now`, restored, in order.
pub open spec fn due_cards(s: Seq<ParkedEntry>, now: i64) -> Seq<Card>
    decreases s.len(),
{
    if s.len() == 0 {
        Seq::empty()
    } else if s.last().wake_time <= now {
        due_cards(s.drop_last(), now).push(restored(s.last()))
    } else {
        due_cards(s.drop_last(), now)
    }
}

pub(crate) proof fn lemma_find(s: Seq<ParkedEntry>, id: u128, i: int)
    requires
        entries_wf(s),
        0 <= i < s.len(),
        key(s[i]) == id,
    ensures
        tracks(s, id),
        find(s, id) == i,
{
    assert(tracks(s, id));
    let j = find(s, id);
    assert(key(s[j]) == id);
}

pub(crate) proof fn lemma_without_wf(s: Seq<ParkedEntry>, id: u128)
    requires
        entries_wf(s),
    ensures
        entries_wf(without(s, id)),
        !tracks(without(s, id), id),
        forall|k: u128| k != id ==> (tracks(without(s, id), k) <==> tracks(s, k)),
{
    let w = without(s, id);
    if tracks(s, id) {
        let f = find(s, id);
        assert(key(s[f]) == id);
        assert forall|i: int| 0 <= i < w.len() implies key(#[trigger] w[i]) != id by {
            if i < f {
                assert(w[i] == s[i]);
            } else {
                assert(w[i] == s[i + 1]);
            }
        }
        assert forall|k: u128| k != id && tracks(s, k) implies tracks(w, k) by {
            let j = choose|j: int| 0 <= j < s.len() && #[trigger] key(s[j]) == k;
            if j < f {
                assert(key(w[j]) == k);
            } else {
                assert(j != f);
                assert(key(w[j - 1]) == k);
            }
        }
        assert forall|k: u128| tracks(w, k) implies tracks(s, k) by {
            let j = choose|j: int| 0 <= j < w.len() && #[trigger] key(w[j]) == k;
            if j < f {
                assert(key(s[j]) == k);
            } else {
                assert(key(s[j + 1]) == k);
            }
        }
        assert forall|i: int, j: int| 0 <= i < w.len() && 0 <= j < w.len() && i != j
            implies key(#[trigger] w[i]) != key(#[trigger] w[j]) by {
            let si = if i < f { i } else { i + 1 };
            let sj = if j < f { j } else { j + 1 };
            assert(w[i] == s[si]);
            assert(w[j] == s[sj]);
        }
        assert forall|i: int| 0 <= i < w.len() implies entry_wf(#[trigger] w[i]) by {
            if i < f {
                assert(w[i] == s[i]);
            } else {
                assert(w[i] == s[i + 1]);
            }
        }
    }
}

/// Removing `id` leaves the entries of other ids as they were.
pub proof fn lemma_without_keeps_others(s: Seq<ParkedEntry>, id: u128, k: u128)
    requires
        entries_wf(s),
        k != id,
        tracks(s, k),
    ensures
        tracks(without(s, id), k),
        without(s, id)[find(without(s, id), k)] == s[find(s, k)],
{
    lemma_without_wf(s, id);
    let w = without(s, id);
    let j = find(s, k);
    assert(key(s[j]) == k);
    if tracks(s, id) {
        let f = find(s, id);
        assert(key(s[f]) == id);
        let wj = if j < f { j } else { j - 1 };
        assert(w[wj] == s[j]);
        lemma_find(w, k, wj);
    } else {
        lemma_find(w, k, j);
    }
}

/// Parking `card` tracks its id besides every id tracked before, and leaves
/// the entries of other ids as they were.
pub proof fn lemma_park_keeps_others(s: Seq<ParkedEntry>, card: Card, wake_time: i64, reason: String, k: u128)
    requires
        entries_wf(s),
        k != card.id,
    ensures
        tracks(park_spec(s, card, wake_time, reason), k) == tracks(s, k),
        tracks(s, k) ==> park_spec(s, card, wake_time, reason)[find(park_spec(s, card, wake_time, reason), k)]
            == s[find(s, k)],
{
    lemma_park_wf(s, card, wake_time, reason);
    lemma_without_wf(s, card.id);
    let w = without(s, card.id);
    let p = park_spec(s, card, wake_time, reason);
    if tracks(s, k) {
        lemma_without_keeps_others(s, card.id, k);
        let j = find(w, k);
        assert(key(w[j]) == k);
        assert(p[j] == w[j]);
        lemma_find(p, k, j);
    }
    if tracks(p, k) {
        let j = find(p, k);
        assert(key(p[j]) == k);
        if j < w.len() {
            assert(p[j] == w[j]);
            assert(tracks(w, k));
        }
    }
}

pub(crate) proof fn lemma_park_wf(s: Seq<ParkedEntry>, card: Card, wake_time: i64, reason: String)
    requires
        entries_wf(s),
    ensures
        entries_wf(park_spec(s, card, wake_time, reason)),
        tracks(park_spec(s, card, wake_time, reason), card.id),
        find(park_spec(s, card, wake_time, reason), card.id) == without(s, card.id).len(),
{
    lemma_without_wf(s, card.id);
    let w = without(s, card.id);
    let p = park_spec(s, card, wake_time, reason);
    assert forall|i: int| 0 <= i < w.len() implies key(#[trigger] p[i]) != card.id by {
        assert(p[i] == w[i]);
        if key(w[i]) == card.id {
            assert(tracks(w, card.id));
        }
    }
    assert forall|i: int, j: int| 0 <= i < p.len() && 0 <= j < p.len() && i != j
        implies key(#[trigger] p[i]) != key(#[trigger] p[j]) by {
        if i < w.len() && j < w.len() {
            assert(p[i] == w[i]);
            assert(p[j] == w[j]);
        }
    }
    assert forall|i: int| 0 <= i < p.len() implies entry_wf(#[trigger] p[i]) by {
        if i < w.len() {
            assert(p[i] == w[i]);
        }
    }
    lemma_find(p, card.id, w.len() as int);
}

proof fn lemma_asleep(s: Seq<ParkedEntry>, now: i64)
    ensures
        forall|i: int| 0 <= i < asleep(s, now).len() ==> (#[trigger] asleep(s, now)[i]).wake_time > now,
        forall|i: int| 0 <= i < s.len() && (#[trigger] s[i]).wake_time > now
            ==> asleep(s, now).contains(s[i]),
        forall|e: ParkedEntry| #[trigger] asleep(s, now).contains(e) ==> s.contains(e),
    decreases s.len(),
{
    if s.len() > 0 {
        let t = s.drop_last();
        lemma_asleep(t, now);
        let a = asleep(s, now);
        let at = asleep(t, now);
        assert forall|i: int| 0 <= i < s.len() && (#[trigger] s[i]).wake_time > now
            implies a.contains(s[i]) by {
            if i < s.len() - 1 {
                assert(s[i] == t[i]);
                let j = choose|j: int| 0 <= j < at.len() && at[j] == t[i];
                assert(a[j] == at[j]);
            } else {
                assert(a[a.len() - 1] == s[i]);
            }
        }
        assert forall|e: ParkedEntry| a.contains(e) implies s.contains(e) by {
            let j = choose|j: int| 0 <= j < a.len() && a[j] == e;
            if j < at.len() {
                assert(at[j] == e);
                assert(at.contains(e));
                assert(t.contains(e));
                let k = choose|k: int| 0 <= k < t.len() && t[k] == e;
                assert(s[k] == e);
            } else {
                assert(s[s.len() - 1] == e);
            }
        }
    }
}

proof fn lemma_asleep_wf(s: Seq<ParkedEntry>, now: i64)
    requires
        entries_wf(s),
    ensures
        entries_wf(asleep(s, now)),
        forall|k: u128| tracks(asleep(s, now), k) ==> tracks(s, k),
    decreases s.len(),
{
    if s.len() > 0 {
        let t = s.drop_last();
        assert forall|i: int, j: int| 0 <= i < t.len() && 0 <= j < t.len() && i != j
            implies key(#[trigger] t[i]) != key(#[trigger] t[j]) by {
            assert(t[i] == s[i] && t[j] == s[j]);
        }
        assert forall|i: int| 0 <= i < t.len() implies entry_wf(#[trigger] t[i]) by {
            assert(t[i] == s[i]);
        }
        lemma_asleep_wf(t, now);
        let a = asleep(s, now);
        let at = asleep(t, now);
        assert forall|k: u128| tracks(a, k) implies tracks(s, k) by {
            let j = choose|j: int| 0 <= j < a.len() && #[trigger] key(a[j]) == k;
            if j < at.len() {
                assert(a[j] == at[j]);
                assert(key(at[j]) == k);
                assert(tracks(at, k));
                assert(tracks(t, k));
                let m = choose|m: int| 0 <= m < t.len() && #[trigger] key(t[m]) == k;
                assert(s[m] == t[m]);
            } else {
                assert(key(s[s.len() - 1]) == k);
            }
        }
        if s.last().wake_time > now {
            let last = s.len() - 1;
            assert forall|i: int| 0 <= i < at.len() implies key(#[trigger] at[i]) != key(s[last]) by {
                if key(at[i]) == key(s[last]) {
                    assert(tracks(at, key(s[last])));
                    assert(tracks(t, key(s[last])));
                    let m = choose|m: int| 0 <= m < t.len() && #[trigger] key(t[m]) == key(s[last]);
                    assert(s[m] == t[m]);
                }
            }
            assert forall|i: int, j: int| 0 <= i < a.len() && 0 <= j < a.len() && i != j
                implies key(#[trigger] a[i]) != key(#[trigger] a[j]) by {
                if i < at.len() && j < at.len() {
                    assert(a[i] == at[i] && a[j] == at[j]);
                } else if i < at.len() {
                    assert(a[i] == at[i]);
                } else if j < at.len() {
                    assert(a[j] == at[j]);
                }
            }
            assert forall|i: int| 0 <= i < a.len() implies entry_wf(#[trigger] a[i]) by {
                if i < at.len() {
                    assert(a[i] == at[i]);
                }
            }
        }
    }
}

/// Park then unpark, with no tick between: the unpark gives back the card,
/// active and with its own type and payload, and a second unpark of the same
/// id gives nothing.
pub proof fn lemma_park_unpark_once(s: Seq<ParkedEntry>, card: Card, wake_time: i64, reason: String)
    requires
        entries_wf(s),
    ensures
        unpark_result(park_spec(s, card, wake_time, reason), card.id)
            == Some(Card { status: CardStatus::Active, ..card }),
        unpark_result(without(park_spec(s, card, wake_time, reason), card.id), card.id) is None,
{
    let p = park_spec(s, card, wake_time, reason);
    lemma_park_wf(s, card, wake_time, reason);
    lemma_without_wf(p, card.id);
}

/// A tick at `now` leaves no entry due, keeps every entry not yet due, and
/// tracks nothing it did not track before.
pub proof fn lemma_tick_wakes_exactly_due(s: Seq<ParkedEntry>, now: i64)
    requires
        entries_wf(s),
    ensures
        forall|i: int| 0 <= i < asleep(s, now).len() ==> (#[trigger] asleep(s, now)[i]).wake_time > now,
        forall|i: int| 0 <= i < s.len() && (#[trigger] s[i]).wake_time > now
            ==> asleep(s, now).contains(s[i]),
        forall|e: ParkedEntry| asleep(s, now).contains(e) ==> s.contains(e),
        entries_wf(asleep(s, now)),
{
    lemma_asleep(s, now);
    lemma_asleep_wf(s, now);
}

/// Snoozing keeps the card parked and its id, title, altitude, reason and
/// pre-park type and payload; only the wake time moves, in the entry and in
/// the payload alike.
pub proof fn lemma_snooze_moves_only_wake_time(e: ParkedEntry, t: i64)
    requires
        entry_wf(e),
    ensures
        entry_wf(rescheduled(e, t)),
        rescheduled(e, t).wake_time == t,
        rescheduled(e, t).card.status == CardStatus::Parked,
        key(rescheduled(e, t)) == key(e),
        rescheduled(e, t).card.title == e.card.title,
        rescheduled(e, t).card.altitude == e.card.altitude,
        rescheduled(e, t).reason == e.reason,
        rescheduled(e, t).original_type == e.original_type,
        rescheduled(e, t).original_content == e.original_content,
        restored(rescheduled(e, t)) == restored(e),
{
}

/// Snoozing a parked id by `minutes`, where the shifted time fits the clock,
/// tracks the same ids, leaves every other entry as it was, and changes only
/// the wake time of the snoozed one, by `minutes` minutes.
pub proof fn lemma_snooze_shifts_wake_time(s: Seq<ParkedEntry>, id: u128, minutes: i64)
    requires
        entries_wf(s),
        tracks(s, id),
        i64::MIN <= s[find(s, id)].wake_time + 60 * minutes <= i64::MAX,
    ensures
        ({
            let i = find(s, id);
            let t = (s[i].wake_time + 60 * minutes) as i64;
            let s2 = s.update(i, rescheduled(s[i], t));
            &&& entries_wf(s2)
            &&& forall|k: u128| tracks(s2, k) == tracks(s, k)
            &&& forall|k: u128| k != id && tracks(s, k) ==> s2[find(s2, k)] == s[find(s, k)]
            &&& s2[find(s2, id)] == rescheduled(s[i], t)
            &&& s2[find(s2, id)].wake_time == s[i].wake_time + 60 * minutes
            &&& restored(s2[find(s2, id)]) == restored(s[i])
        }),
{
    let i = find(s, id);
    let t = (s[i].wake_time + 60 * minutes) as i64;
    let s2 = s.update(i, rescheduled(s[i], t));
    assert(key(s[i]) == id);
    assert forall|a: int, b: int| 0 <= a < s2.len() && 0 <= b < s2.len() && a != b
        implies key(#[trigger] s2[a]) != key(#[trigger] s2[b]) by {
        assert(key(s2[a]) == key(s[a]));
        assert(key(s2[b]) == key(s[b]));
    }
    assert forall|a: int| 0 <= a < s2.len() implies entry_wf(#[trigger] s2[a]) by {
        if a != i {
            assert(s2[a] == s[a]);
        }
    }
    assert forall|k: u128| tracks(s2, k) == tracks(s, k) by {
        if tracks(s2, k) {
            let j = choose|j: int| 0 <= j < s2.len() && #[trigger] key(s2[j]) == k;
            assert(key(s[j]) == k);
        }
        if tracks(s, k) {
            let j = choose|j: int| 0 <= j < s.len() && #[trigger] key(s[j]) == k;
            assert(key(s2[j]) == k);
        }
    }
    assert forall|k: u128| k != id && tracks(s, k) implies s2[find(s2, k)] == s[find(s, k)] by {
        let j = find(s, k);
        assert(key(s[j]) == k);
        assert(j != i);
        assert(key(s2[j]) == k);
        lemma_find(s2, k, j);
    }
    lemma_find(s2, id, i);
}

pub struct ParkingService {
    entries: Vec<ParkedEntry>,
}

impl View for ParkingService {
    type V = Seq<ParkedEntry>;

    closed spec fn view(&self) -> Seq<ParkedEntry> {
        self.entries@
    }
}

impl ParkingService {
    pub open spec fn wf(&self) -> bool {
        entries_wf(self@)
    }

    /// A scheduler that tracks nothing.
    pub fn new() -> (r: ParkingService)
        ensures
            r.wf(),
            r@ == Seq::<ParkedEntry>::empty(),
    {
        ParkingService { entries: Vec::new() }
    }

    fn index_of(&self, id: u128) -> (r: Option<usize>)
        requires
            self.wf(),
        ensures
            match r {
                Some(i) => tracks(self@, id) && i == find(self@, id) && i < self@.len(),
                None => !tracks(self@, id),
            },
    {
        let mut i: usize = 0;
        while i < self.entries.len()
            invariant
                self.wf(),
                i <= self.entries@.len(),
                forall|j: int| 0 <= j < i ==> key(#[trigger] self.entries@[j]) != id,
            decreases self.entries@.len() - i,
        {
            if self.entries[i].card.id == id {
                proof {
                    lemma_find(self.entries@, id, i as int);
                }
                return Some(i);
            }
            i = i + 1;
        }
        None
    }

    /// Parks `card` until `wake_time`: the card takes the parked status,
    /// type and payload, and an earlier entry for the same id is replaced.
    pub fn park_card(&mut self, card: Card, wake_time: i64, reason: String) -> (r: u128)
        requires
            old(self).wf(),
        ensures
            final(self).wf(),
            r == card.id,
            final(self)@ == park_spec(old(self)@, card, wake_time, reason),
            final(self)@.len() <= old(self)@.len() + 1,
    {
        proof {
            lemma_park_wf(self@, card, wake_time, reason);
        }
        let id = card.id;
        if let Some(i) = self.index_of(id) {
            self.entries.remove(i);
        }
        let mut card = card;
        let original_type = card.card_type;
        let original_content = card.content;
        card.status = CardStatus::Parked;
        card.card_type = CardType::Parked;
        card.content = CardContent::Parked { original_card_id: id, wake_time, wake_reason: reason.clone() };
        self.entries.push(ParkedEntry { card, wake_time, reason, original_type, original_content });
        id
    }

    /// Stops tracking `id` and gives back its card, active again; nothing
    /// where `id` is not parked.
    pub fn unpark_card(&mut self, id: u128) -> (r: Option<Card>)
        requires
            old(self).wf(),
        ensures
            final(self).wf(),
            r == unpark_result(old(self)@, id),
            final(self)@ == without(old(self)@, id),
            !tracks(final(self)@, id),
    {
        proof {
            lemma_without_wf(self@, id);
        }
        match self.index_of(id) {
            Some(i) => {
                let e = self.entries.remove(i);
                let mut card = e.card;
                card.status = CardStatus::Active;
                card.card_type = e.original_type;
                card.content = e.original_content;
                Some(card)
            },
            None => None,
        }
    }

    /// Moves the wake time of `id` by `additional_minutes`, in the entry and
    /// in the card's payload; the card stays parked.
    pub fn snooze_card(&mut self, id: u128, additional_minutes: i64) -> (r: Result<(), ParkingError>)
        requires
            old(self).wf(),
        ensures
            final(self).wf(),
            !tracks(old(self)@, id) ==> r == Err::<(), ParkingError>(ParkingError::NotFound)
                && final(self)@ == old(self)@,
            tracks(old(self)@, id) ==> ({
                let i = find(old(self)@, id);
                let t = old(self)@[i].wake_time + 60 * additional_minutes;
                if i64::MIN <= t <= i64::MAX {
                    r is Ok && final(self)@ == old(self)@.update(i, rescheduled(old(self)@[i], t as i64))
                } else {
                    r == Err::<(), ParkingError>(ParkingError::OutOfRange) && final(self)@ == old(self)@
                }
            }),
    {
        match self.index_of(id) {
            None => Err(ParkingError::NotFound),
            Some(i) => {
                let shifted: i128 = self.entries[i].wake_time as i128 + additional_minutes as i128 * 60;
                if shifted < i64::MIN as i128 || shifted > i64::MAX as i128 {
                    return Err(ParkingError::OutOfRange);
                }
                let t = shifted as i64;
                let ghost before = self@;
                let mut e = self.entries.remove(i);
                e.wake_time = t;
                e.card.content = CardContent::Parked { original_card_id: id, wake_time: t, wake_reason: e.reason.clone() };
                self.entries.insert(i, e);
                proof {
                    assert(self@ =~= before.update(i as int, rescheduled(before[i as int], t)));
                    assert forall|a: int, b: int| 0 <= a < self@.len() && 0 <= b < self@.len() && a != b
                        implies key(#[trigger] self@[a]) != key(#[trigger] self@[b]) by {
                        assert(key(self@[a]) == key(before[a]));
                        assert(key(self@[b]) == key(before[b]));
                    }
                    assert forall|a: int| 0 <= a < self@.len() implies entry_wf(#[trigger] self@[a]) by {
                        if a != i {
                            assert(self@[a] == before[a]);
                        }
                    }
                }
                Ok(())
            },
        }
    }

    /// Wakes every card whose wake time is at or before `now`, in order, and
    /// keeps the others parked.
    pub fn wake_due(&mut self, now: i64) -> (r: Vec<Card>)
        requires
            old(self).wf(),
        ensures
            final(self).wf(),
            final(self)@ == asleep(old(self)@, now),
            r@ == due_cards(old(self)@, now),
    {
        proof {
            lemma_asleep_wf(self@, now);
        }
        let ghost orig = self@;
        let mut rest: Vec<ParkedEntry> = Vec::new();
        std::mem::swap(&mut self.entries, &mut rest);
        let mut kept: Vec<ParkedEntry> = Vec::new();
        let mut woken: Vec<Card> = Vec::new();
        let ghost mut k: int = 0;
        while rest.len() > 0
            invariant
                0 <= k <= orig.len(),
                rest@ == orig.subrange(k, orig.len() as int),
                kept@ == asleep(orig.subrange(0, k), now),
                woken@ == due_cards(orig.subrange(0, k), now),
            decreases rest@.len(),
        {
            assert(orig.subrange(0, k + 1).drop_last() =~= orig.subrange(0, k));
            assert(orig.subrange(0, k + 1).last() == orig[k]);
            let e = rest.remove(0);
            if e.wake_time <= now {
                let mut card = e.card;
                card.status = CardStatus::Active;
                card.card_type = e.original_type;
                card.content = e.original_content;
                woken.push(card);
            } else {
                kept.push(e);
            }
            proof {
                k = k + 1;
            }
            assert(rest@ =~= orig.subrange(k, orig.len() as int));
        }
        assert(orig.subrange(0, k) =~= orig);
        self.entries = kept;
        woken
    }

    /// The id is parked.
    pub fn is_parked(&self, id: u128) -> (r: bool)
        requires
            self.wf(),
        ensures
            r == tracks(self@, id),
    {
        self.index_of(id).is_some()
    }

    /// The wake time and reason of `id`, where it is parked.
    pub fn wake_of(&self, id: u128) -> (r: Option<(i64, String)>)
        requires
            self.wf(),
        ensures
            match r {
                Some((t, reason)) => tracks(self@, id) && t == self@[find(self@, id)].wake_time
                    && reason == self@[find(self@, id)].reason,
                None => !tracks(self@, id),
            },
    {
        match self.index_of(id) {
            Some(i) => Some((self.entries[i].wake_time, self.entries[i].reason.clone())),
            None => None,
        }
    }

    /// The ids due at `now`: every parked id whose wake time is at or before it.
    pub fn due_ids(&self, now: i64) -> (r: Vec<u128>)
        requires
            self.wf(),
        ensures
            forall|k: u128| r@.contains(k) <==> (tracks(self@, k) && self@[find(self@, k)].wake_time <= now),
            r@.no_duplicates(),
    {
        let mut out: Vec<u128> = Vec::new();
        let mut i: usize = 0;
        while i < self.entries.len()
            invariant
                self.wf(),
                i <= self.entries@.len(),
                out@.no_duplicates(),
                forall|k: u128| out@.contains(k) <==> exists|j: int| 0 <= j < i && #[trigger] key(self.entries@[j]) == k
                    && self.entries@[j].wake_time <= now,
            decreases self.entries@.len() - i,
        {
            let ghost before = out@;
            if self.entries[i].wake_time <= now {
                let id = self.entries[i].card.id;
                proof {
                    if before.contains(id) {
                        let j = choose|j: int| 0 <= j < i && #[trigger] key(self.entries@[j]) == id
                            && self.entries@[j].wake_time <= now;
                        assert(key(self.entries@[j]) == key(self.entries@[i as int]));
                    }
                }
                out.push(id);
                proof {
                    assert forall|k: u128| out@.contains(k) implies exists|j: int| 0 <= j < i + 1
                        && #[trigger] key(self.entries@[j]) == k && self.entries@[j].wake_time <= now by {
                        if k != id {
                            assert(before.contains(k));
                        } else {
                            assert(key(self.entries@[i as int]) == k);
                        }
                    }
                    assert forall|k: u128| (exists|j: int| 0 <= j < i + 1 && #[trigger] key(self.entries@[j]) == k
                        && self.entries@[j].wake_time <= now) implies out@.contains(k) by {
                        let j = choose|j: int| 0 <= j < i + 1 && #[trigger] key(self.entries@[j]) == k
                            && self.entries@[j].wake_time <= now;
                        if j < i {
                            assert(before.contains(k));
                            let m = choose|m: int| 0 <= m < before.len() && before[m] == k;
                            assert(out@[m] == k);
                        } else {
                            assert(out@[before.len() as int] == k);
                        }
                    }
                }
            } else {
                proof {
                    assert forall|k: u128| (exists|j: int| 0 <= j < i + 1 && #[trigger] key(self.entries@[j]) == k
                        && self.entries@[j].wake_time <= now) implies out@.contains(k) by {
                        let j = choose|j: int| 0 <= j < i + 1 && #[trigger] key(self.entries@[j]) == k
                            && self.entries@[j].wake_time <= now;
                        assert(j != i);
                    }
                }
            }
            i = i + 1;
        }
        proof {
            assert forall|k: u128| out@.contains(k) <==> (tracks(self@, k) && self@[find(self@, k)].wake_time <= now) by {
                if out@.contains(k) {
                    let j = choose|j: int| 0 <= j < self.entries@.len() && #[trigger] key(self.entries@[j]) == k
                        && self.entries@[j].wake_time <= now;
                    lemma_find(self@, k, j);
                }
                if tracks(self@, k) && self@[find(self@, k)].wake_time <= now {
                    let j = find(self@, k);
                    assert(key(self.entries@[j]) == k);
                }
            }
        }
        out
    }

    /// How many cards are parked.
    pub fn parked_count(&self) -> (r: usize)
        ensures
            r == self@.len(),
    {
        self.entries.len()
    }

    /// Copies of the tracked entries as (parked card, wake time, reason), in order.
    pub fn get_parked_cards(&self) -> (r: Vec<(Card, i64, String)>)
        ensures
            r@.len() == self@.len(),
            forall|i: int| 0 <= i < r@.len() ==> {
                &&& (#[trigger] r@[i]).0.is_copy_of(&self@[i].card)
                &&& r@[i].1 == self@[i].wake_time
                &&& r@[i].2 == self@[i].reason
            },
    {
        let mut out: Vec<(Card, i64, String)> = Vec::new();
        let mut i: usize = 0;
        while i < self.entries.len()
            invariant
                i <= self.entries@.len(),
                out@.len() == i,
                forall|j: int| 0 <= j < i ==> {
                    &&& (#[trigger] out@[j]).0.is_copy_of(&self.entries@[j].card)
                    &&& out@[j].1 == self.entries@[j].wake_time
                    &&& out@[j].2 == self.entries@[j].reason
                },
            decreases self.entries@.len() - i,
        {
            let e = &self.entries[i];
            out.push((e.card.duplicate(), e.wake_time, e.reason.clone()));
            i = i + 1;
        }
        out
    }

    /// A listing of every parked card, in order, each woken by its time.
    pub fn get_parked_items(&self) -> (r: Vec<ParkedItem>)
        ensures
            r@.len() == self@.len(),
            forall|i: int| 0 <= i < r@.len() ==> {
                let e = self@[i];
                let item = #[trigger] r@[i];
                &&& item.id == key(e)
                &&& item.title == e.card.title
                &&& item.wake_time == e.wake_time
                &&& item.altitude == e.card.altitude
                &&& item.origin_card_id == key(e)
                &&& item.context == Some(e.reason)
                &&& item.wake_conditions@ == seq![WakeCondition::Time(e.wake_time)]
            },
    {
        let mut out: Vec<ParkedItem> = Vec::new();
        let mut i: usize = 0;
        while i < self.entries.len()
            invariant
                i <= self.entries@.len(),
                out@.len() == i,
                forall|j: int| 0 <= j < i ==> {
                    let e = self.entries@[j];
                    let item = #[trigger] out@[j];
                    &&& item.id == key(e)
                    &&& item.title == e.card.title
                    &&& item.wake_time == e.wake_time
                    &&& item.altitude == e.card.altitude
                    &&& item.origin_card_id == key(e)
                    &&& item.context == Some(e.reason)
                    &&& item.wake_conditions@ == seq![WakeCondition::Time(e.wake_time)]
                },
            decreases self.entries@.len() - i,
        {
            let e = &self.entries[i];
            let conditions = vec![WakeCondition::Time(e.wake_time)];
            out.push(ParkedItem {
                id: e.card.id,
                title: e.card.title.clone(),
                wake_time: e.wake_time,
                altitude: e.card.altitude,
                origin_card_id: e.card.id,
                context: Some(e.reason.clone()),
                wake_conditions: conditions,
            });
            i = i + 1;
        }
        out
    }
}

} // verus!
