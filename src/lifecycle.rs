//! The card lifecycle across the registry and the scheduler: a card is
//! parked exactly when the scheduler tracks its id.

use vstd::prelude::*;
use crate::card::{Altitude, Card, CardContent, CardStatus, CardType, Duplicate};
use crate::feed::{ordered, Feed, FeedService};
use crate::parking::{
    find, lemma_park_keeps_others, lemma_without_keeps_others, park_spec, tracks, without,
    ParkedEntry, ParkingError, ParkingService,
};
use crate::registry::{card_index, has_card, lemma_put_keeps_others, put_spec, CardRegistry};

verus! {

#[derive(Clone, Copy, Debug, PartialEq, Eq, Structural)]
pub enum LifecycleError {
    /// No card has the id.
    NotFound,
    /// The card is parked; unpark it first.
    Parked,
    /// The card is completed or cancelled.
    Terminal,
    /// A producer handed over a card in the parked state.
    InvalidInput,
}

/// Every parked id names a registry card in parked status, and every
/// registry card in parked status is tracked by the scheduler.
pub open spec fn linked(reg: Seq<Card>, park: Seq<ParkedEntry>) -> bool {
    &&& forall|k: u128| tracks(park, k) ==> has_card(reg, k) && reg[card_index(reg, k)].status == CardStatus::Parked
    &&& forall|i: int| 0 <= i < reg.len() && (#[trigger] reg[i]).status == CardStatus::Parked ==> tracks(park, reg[i].id)
}

pub open spec fn is_terminal(s: CardStatus) -> bool {
    s == CardStatus::Completed || s == CardStatus::Cancelled
}

/// The registry and the scheduler, kept in step.
pub struct Engine {
    registry: CardRegistry,
    parking: ParkingService,
}

impl Engine {
    pub closed spec fn wf(&self) -> bool {
        &&& self.registry.wf()
        &&& self.parking.wf()
        &&& linked(self.registry@, self.parking@)
    }

    /// All cards, in creation order.
    pub closed spec fn cards(&self) -> Seq<Card> {
        self.registry@
    }

    /// The scheduler's entries.
    pub closed spec fn parked(&self) -> Seq<ParkedEntry> {
        self.parking@
    }

    pub fn new() -> (r: Engine)
        ensures
            r.wf(),
            r.cards().len() == 0,
            r.parked().len() == 0,
    {
        Engine { registry: CardRegistry::new(), parking: ParkingService::new() }
    }

    pub fn registry(&self) -> (r: &CardRegistry)
        requires
            self.wf(),
        ensures
            r@ == self.cards(),
            r.wf(),
    {
        &self.registry
    }

    pub fn parking(&self) -> (r: &ParkingService)
        requires
            self.wf(),
        ensures
            r@ == self.parked(),
            r.wf(),
    {
        &self.parking
    }

    /// Stops tracking `id` and puts its card back in the registry, active,
    /// with its type and payload from before it was parked. Nothing where
    /// `id` is not parked; a second unpark of the same id gives nothing.
    pub fn unpark(&mut self, id: u128) -> (r: Option<Card>)
        requires
            old(self).wf(),
        ensures
            final(self).wf(),
            r == crate::parking::unpark_result(old(self).parked(), id),
            final(self).parked() == without(old(self).parked(), id),
            !tracks(final(self).parked(), id),
            same_elsewhere(final(self).cards(), old(self).cards(), id),
            match r {
                Some(c) => has_card(final(self).cards(), id)
                    && final(self).cards()[card_index(final(self).cards(), id)].is_copy_of(&c),
                None => final(self).cards() == old(self).cards(),
            },
    {
        let ghost reg0 = self.registry@;
        let ghost p0 = self.parking@;
        match self.parking.unpark_card(id) {
            Some(card) => {
                proof {
                    let e = p0[find(p0, id)];
                    assert(crate::parking::key(e) == id);
                    assert(crate::parking::entry_wf(e));
                }
                let copy = card.duplicate();
                let ghost c = copy;
                self.registry.put(copy);
                proof {
                    lemma_unpark_linked(reg0, p0, c);
                    lemma_put_same_elsewhere(reg0, c);
                    crate::registry::lemma_put(reg0, c);
                }
                Some(card)
            },
            None => None,
        }
    }

    /// Parks the registry card `id` until `wake_time`: the scheduler keeps
    /// the card as it was, and the registry shows its parked form. A card
    /// parked already is first woken, so the last park wins.
    pub fn park(&mut self, id: u128, wake_time: i64, reason: String) -> (r: Result<(), LifecycleError>)
        requires
            old(self).wf(),
        ensures
            final(self).wf(),
            !has_card(old(self).cards(), id) ==> r == Err::<(), LifecycleError>(LifecycleError::NotFound)
                && final(self).cards() == old(self).cards() && final(self).parked() == old(self).parked(),
            has_card(old(self).cards(), id) && is_terminal(old(self).cards()[card_index(old(self).cards(), id)].status)
                ==> r == Err::<(), LifecycleError>(LifecycleError::Terminal)
                && final(self).cards() == old(self).cards() && final(self).parked() == old(self).parked(),
            has_card(old(self).cards(), id) && !is_terminal(old(self).cards()[card_index(old(self).cards(), id)].status)
                ==> r is Ok,
            r is Ok ==> {
                &&& tracks(final(self).parked(), id)
                &&& final(self).parked()[find(final(self).parked(), id)].wake_time == wake_time
                &&& final(self).parked()[find(final(self).parked(), id)].reason == reason
                &&& has_card(final(self).cards(), id)
                &&& final(self).cards()[card_index(final(self).cards(), id)].status == CardStatus::Parked
                &&& same_elsewhere(final(self).cards(), old(self).cards(), id)
            },
    {
        let ghost reg_start = self.registry@;
        if self.parking.is_parked(id) {
            self.unpark(id);
        }
        let ghost reg0 = self.registry@;
        let ghost p0 = self.parking@;
        let (for_park, mut for_registry) = match self.registry.get(id) {
            None => {
                return Err(LifecycleError::NotFound);
            },
            Some(c) => {
                if c.status == CardStatus::Completed || c.status == CardStatus::Cancelled {
                    return Err(LifecycleError::Terminal);
                }
                (c.duplicate(), c.duplicate())
            },
        };
        for_registry.status = CardStatus::Parked;
        for_registry.card_type = CardType::Parked;
        for_registry.content = CardContent::Parked { original_card_id: id, wake_time, wake_reason: reason.clone() };
        let ghost gp = for_park;
        let ghost gr = for_registry;
        let ghost greason = reason;
        self.parking.park_card(for_park, wake_time, reason);
        self.registry.put(for_registry);
        proof {
            lemma_park_linked(reg0, p0, gp, wake_time, greason, gr);
            crate::parking::lemma_park_wf(p0, gp, wake_time, greason);
            crate::registry::lemma_put(reg0, gr);
            lemma_put_same_elsewhere(reg0, gr);
        }
        Ok(())
    }

    /// Moves the wake time of the parked card `id` by `additional_minutes`,
    /// in the scheduler and in the registry's parked form alike.
    pub fn snooze(&mut self, id: u128, additional_minutes: i64) -> (r: Result<(), ParkingError>)
        requires
            old(self).wf(),
        ensures
            final(self).wf(),
            !tracks(old(self).parked(), id) ==> r == Err::<(), ParkingError>(ParkingError::NotFound)
                && final(self).parked() == old(self).parked() && final(self).cards() == old(self).cards(),
            tracks(old(self).parked(), id) ==> ({
                let i = find(old(self).parked(), id);
                let t = old(self).parked()[i].wake_time + 60 * additional_minutes;
                if i64::MIN <= t <= i64::MAX {
                    &&& r is Ok
                    &&& final(self).parked() == old(self).parked().update(
                        i, crate::parking::rescheduled(old(self).parked()[i], t as i64))
                    &&& has_card(final(self).cards(), id)
                    &&& final(self).cards()[card_index(final(self).cards(), id)].status == CardStatus::Parked
                    &&& final(self).cards()[card_index(final(self).cards(), id)].content == (CardContent::Parked {
                        original_card_id: id,
                        wake_time: t as i64,
                        wake_reason: old(self).parked()[i].reason,
                    })
                    &&& same_elsewhere(final(self).cards(), old(self).cards(), id)
                } else {
                    r == Err::<(), ParkingError>(ParkingError::OutOfRange)
                        && final(self).parked() == old(self).parked() && final(self).cards() == old(self).cards()
                }
            }),
    {
        let ghost p0 = self.parking@;
        let ghost reg0 = self.registry@;
        let r = self.parking.snooze_card(id, additional_minutes);
        if r.is_err() {
            return r;
        }
        proof {
            let i = find(p0, id);
            assert(crate::parking::key(p0[i]) == id);
            lemma_same_keys(p0, self.parking@);
            assert(linked(reg0, self.parking@));
            crate::parking::lemma_find(self.parking@, id, i);
        }
        let (t, reason) = match self.parking.wake_of(id) {
            Some(found) => found,
            None => {
                return r;
            },
        };
        let mut shown = match self.registry.get(id) {
            Some(c) => c.duplicate(),
            None => {
                return r;
            },
        };
        shown.content = CardContent::Parked { original_card_id: id, wake_time: t, wake_reason: reason };
        let ghost gs = shown;
        self.registry.put(shown);
        proof {
            lemma_put_tracked(reg0, self.parking@, gs);
            crate::registry::lemma_put(reg0, gs);
            lemma_put_same_elsewhere(reg0, gs);
        }
        r
    }

    /// Wakes every parked card due at `now`, one unpark each, and gives
    /// their ids; cards not yet due stay parked as they were.
    pub fn wake_due(&mut self, now: i64) -> (r: Vec<u128>)
        requires
            old(self).wf(),
        ensures
            final(self).wf(),
            forall|k: u128| r@.contains(k) <==> (tracks(old(self).parked(), k)
                && old(self).parked()[find(old(self).parked(), k)].wake_time <= now),
            r@.no_duplicates(),
            forall|k: u128| tracks(final(self).parked(), k) <==> (tracks(old(self).parked(), k)
                && old(self).parked()[find(old(self).parked(), k)].wake_time > now),
            forall|k: u128| tracks(final(self).parked(), k) ==> final(self).parked()[find(final(self).parked(), k)]
                == old(self).parked()[find(old(self).parked(), k)],
            forall|k: u128| r@.contains(k) ==> has_card(final(self).cards(), k)
                && final(self).cards()[card_index(final(self).cards(), k)].status == CardStatus::Active,
    {
        let ids = self.parking.due_ids(now);
        let ghost p0 = self.parking@;
        let mut i: usize = 0;
        while i < ids.len()
            invariant
                self.wf(),
                i <= ids@.len(),
                ids@.no_duplicates(),
                forall|k: u128| ids@.contains(k) <==> (tracks(p0, k) && p0[find(p0, k)].wake_time <= now),
                forall|k: u128| tracks(self.parked(), k) ==> tracks(p0, k)
                    && self.parked()[find(self.parked(), k)] == p0[find(p0, k)],
                forall|k: u128| tracks(p0, k) && !ids@.subrange(0, i as int).contains(k) ==> tracks(self.parked(), k),
                forall|j: int| 0 <= j < i ==> !tracks(self.parked(), #[trigger] ids@[j]),
                forall|j: int| 0 <= j < i ==> has_card(self.cards(), #[trigger] ids@[j])
                    && self.cards()[card_index(self.cards(), ids@[j])].status == CardStatus::Active,
            decreases ids@.len() - i,
        {
            let id = ids[i];
            let ghost before = self.parked();
            let ghost cards_before = self.cards();
            let ghost tracked_before = tracks(before, id);
            proof {
                assert(ids@.contains(id));
                assert(!ids@.subrange(0, i as int).contains(id)) by {
                    if ids@.subrange(0, i as int).contains(id) {
                        let j = choose|j: int| 0 <= j < i && ids@.subrange(0, i as int)[j] == id;
                        assert(ids@[j] == ids@[i as int]);
                    }
                }
                assert(tracks(p0, id));
                assert(tracks(before, id));
            }
            let woken = self.unpark(id);
            proof {
                assert(tracked_before);
                let after = self.parked();
                assert forall|k: u128| tracks(after, k) implies tracks(p0, k)
                    && after[find(after, k)] == p0[find(p0, k)] by {
                    crate::parking::lemma_without_wf(before, id);
                    lemma_without_keeps_others(before, id, k);
                }
                assert forall|k: u128| tracks(p0, k) && !ids@.subrange(0, i as int + 1).contains(k)
                    implies tracks(after, k) by {
                    assert(!ids@.subrange(0, i as int).contains(k)) by {
                        if ids@.subrange(0, i as int).contains(k) {
                            let j = choose|j: int| 0 <= j < i && ids@.subrange(0, i as int)[j] == k;
                            assert(ids@.subrange(0, i as int + 1)[j] == k);
                        }
                    }
                    assert(k != id) by {
                        if k == id {
                            assert(ids@.subrange(0, i as int + 1)[i as int] == k);
                        }
                    }
                    lemma_without_keeps_others(before, id, k);
                }
                assert forall|j: int| 0 <= j < i + 1 implies !tracks(after, #[trigger] ids@[j]) by {
                    if j < i {
                        crate::parking::lemma_without_wf(before, id);
                    }
                }
                assert forall|j: int| 0 <= j < i + 1 implies has_card(self.cards(), #[trigger] ids@[j])
                    && self.cards()[card_index(self.cards(), ids@[j])].status == CardStatus::Active by {
                    if j < i {
                        assert(ids@[j] != id);
                    } else {
                        let e = before[find(before, id)];
                        assert(crate::parking::key(e) == id);
                    }
                }
            }
            i = i + 1;
        }
        proof {
            assert(ids@.subrange(0, ids@.len() as int) =~= ids@);
            let fin = self.parked();
            assert forall|k: u128| tracks(fin, k) <==> (tracks(p0, k) && p0[find(p0, k)].wake_time > now) by {
                if tracks(fin, k) {
                    if p0[find(p0, k)].wake_time <= now {
                        assert(ids@.contains(k));
                        let j = choose|j: int| 0 <= j < ids@.len() && ids@[j] == k;
                        assert(!tracks(fin, ids@[j]));
                    }
                }
            }
            assert forall|k: u128| ids@.contains(k) implies has_card(self.cards(), k)
                && self.cards()[card_index(self.cards(), k)].status == CardStatus::Active by {
                let j = choose|j: int| 0 <= j < ids@.len() && ids@[j] == k;
                assert(has_card(self.cards(), ids@[j]));
            }
        }
        ids
    }

    /// Completes or cancels the card `id`; a parked card is woken first.
    pub fn finish(&mut self, id: u128, status: CardStatus) -> (r: Result<(), LifecycleError>)
        requires
            old(self).wf(),
            is_terminal(status),
        ensures
            final(self).wf(),
            !has_card(old(self).cards(), id) ==> r == Err::<(), LifecycleError>(LifecycleError::NotFound)
                && final(self).cards() == old(self).cards() && final(self).parked() == old(self).parked(),
            has_card(old(self).cards(), id) ==> {
                &&& r is Ok
                &&& has_card(final(self).cards(), id)
                &&& final(self).cards()[card_index(final(self).cards(), id)].status == status
                &&& !tracks(final(self).parked(), id)
                &&& final(self).parked() == without(old(self).parked(), id)
                &&& same_elsewhere(final(self).cards(), old(self).cards(), id)
            },
    {
        if self.parking.is_parked(id) {
            self.unpark(id);
        }
        let ghost reg0 = self.registry@;
        let ghost p0 = self.parking@;
        let mut done = match self.registry.get(id) {
            Some(c) => c.duplicate(),
            None => {
                return Err(LifecycleError::NotFound);
            },
        };
        done.status = status;
        let ghost gd = done;
        self.registry.put(done);
        proof {
            lemma_put_active(reg0, p0, gd);
            crate::registry::lemma_put(reg0, gd);
            lemma_put_same_elsewhere(reg0, gd);
        }
        Ok(())
    }

    /// The feed over the registry's cards, with the scheduler's parked count.
    pub fn get_feed(&self, service: &FeedService, filter: Option<Altitude>, limit: usize) -> (r: Feed)
        requires
            self.wf(),
        ensures
            r.cards@.len() == if limit < ordered(self.cards(), filter).len() {
                limit as int
            } else {
                ordered(self.cards(), filter).len() as int
            },
            forall|i: int| 0 <= i < r.cards@.len()
                ==> (#[trigger] r.cards@[i]).is_copy_of(&ordered(self.cards(), filter)[i]),
            r.current_altitude == service.current_of(self.cards()),
            r.parked_count == self.parked().len(),
    {
        let parked_count = self.parking.parked_count();
        service.get_feed(self.registry.list(), filter, limit, parked_count)
    }

    /// Puts a card handed over by a producer. A card in parked status, or
    /// one whose id is parked, is refused and nothing changes.
    pub fn put(&mut self, card: Card) -> (r: Result<(), LifecycleError>)
        requires
            old(self).wf(),
        ensures
            final(self).wf(),
            final(self).parked() == old(self).parked(),
            card.status == CardStatus::Parked ==> r == Err::<(), LifecycleError>(LifecycleError::InvalidInput)
                && final(self).cards() == old(self).cards(),
            card.status != CardStatus::Parked && tracks(old(self).parked(), card.id)
                ==> r == Err::<(), LifecycleError>(LifecycleError::Parked) && final(self).cards() == old(self).cards(),
            card.status != CardStatus::Parked && !tracks(old(self).parked(), card.id)
                ==> r is Ok && final(self).cards() == put_spec(old(self).cards(), card),
    {
        if card.status == CardStatus::Parked {
            return Err(LifecycleError::InvalidInput);
        }
        if self.parking.is_parked(card.id) {
            return Err(LifecycleError::Parked);
        }
        let ghost reg0 = self.registry@;
        let ghost c = card;
        self.registry.put(card);
        proof {
            lemma_put_active(reg0, self.parking@, c);
        }
        Ok(())
    }
}

/// The cards under ids other than `id` are the same in both sequences.
pub open spec fn same_elsewhere(a: Seq<Card>, b: Seq<Card>, id: u128) -> bool {
    forall|k: u128| k != id ==> (has_card(a, k) == has_card(b, k)
        && (has_card(a, k) ==> a[card_index(a, k)] == b[card_index(b, k)]))
}

proof fn lemma_put_same_elsewhere(reg0: Seq<Card>, c: Card)
    requires
        crate::registry::ids_unique(reg0),
    ensures
        same_elsewhere(put_spec(reg0, c), reg0, c.id),
{
    assert forall|k: u128| k != c.id implies (has_card(put_spec(reg0, c), k) == has_card(reg0, k)
        && (has_card(put_spec(reg0, c), k) ==> put_spec(reg0, c)[card_index(put_spec(reg0, c), k)]
            == reg0[card_index(reg0, k)])) by {
        lemma_put_keeps_others(reg0, c, k);
    }
}

/// Putting a parked card whose id the scheduler tracks keeps them linked.
proof fn lemma_put_tracked(reg0: Seq<Card>, park: Seq<ParkedEntry>, c: Card)
    requires
        crate::registry::ids_unique(reg0),
        linked(reg0, park),
        crate::parking::entries_wf(park),
        c.status == CardStatus::Parked,
        tracks(park, c.id),
    ensures
        linked(put_spec(reg0, c), park),
{
    let reg = put_spec(reg0, c);
    crate::registry::lemma_put(reg0, c);
    assert forall|k: u128| tracks(park, k) implies has_card(reg, k)
        && reg[card_index(reg, k)].status == CardStatus::Parked by {
        if k != c.id {
            lemma_put_keeps_others(reg0, c, k);
        }
    }
    assert forall|i: int| 0 <= i < reg.len() && (#[trigger] reg[i]).status == CardStatus::Parked
        implies tracks(park, reg[i].id) by {
        let k = reg[i].id;
        crate::registry::lemma_card_index(reg, i);
        if k != c.id {
            lemma_put_keeps_others(reg0, c, k);
            let j0 = card_index(reg0, k);
            assert(reg0[j0].id == k);
        }
    }
}

/// Unparking `id` and putting its card back, no longer parked, keeps them linked.
proof fn lemma_unpark_linked(reg0: Seq<Card>, p0: Seq<ParkedEntry>, c: Card)
    requires
        crate::registry::ids_unique(reg0),
        linked(reg0, p0),
        crate::parking::entries_wf(p0),
        c.status != CardStatus::Parked,
    ensures
        linked(put_spec(reg0, c), without(p0, c.id)),
{
    let reg = put_spec(reg0, c);
    let p1 = without(p0, c.id);
    crate::registry::lemma_put(reg0, c);
    crate::parking::lemma_without_wf(p0, c.id);
    assert forall|k: u128| tracks(p1, k) implies has_card(reg, k)
        && reg[card_index(reg, k)].status == CardStatus::Parked by {
        lemma_put_keeps_others(reg0, c, k);
    }
    assert forall|i: int| 0 <= i < reg.len() && (#[trigger] reg[i]).status == CardStatus::Parked
        implies tracks(p1, reg[i].id) by {
        let k = reg[i].id;
        crate::registry::lemma_card_index(reg, i);
        if k == c.id {
            assert(reg[card_index(reg, k)] == c);
        } else {
            lemma_put_keeps_others(reg0, c, k);
            let j0 = card_index(reg0, k);
            assert(reg0[j0].id == k);
        }
    }
}

/// Parking a registry card whose id is not parked, and putting its parked
/// form in the registry, keeps them linked.
proof fn lemma_park_linked(reg0: Seq<Card>, p0: Seq<ParkedEntry>, c: Card, wake_time: i64, reason: String, parked: Card)
    requires
        crate::registry::ids_unique(reg0),
        linked(reg0, p0),
        crate::parking::entries_wf(p0),
        !tracks(p0, c.id),
        parked.id == c.id,
        parked.status == CardStatus::Parked,
    ensures
        linked(put_spec(reg0, parked), park_spec(p0, c, wake_time, reason)),
{
    let reg = put_spec(reg0, parked);
    let p1 = park_spec(p0, c, wake_time, reason);
    crate::registry::lemma_put(reg0, parked);
    crate::parking::lemma_park_wf(p0, c, wake_time, reason);
    assert forall|k: u128| tracks(p1, k) implies has_card(reg, k)
        && reg[card_index(reg, k)].status == CardStatus::Parked by {
        if k != c.id {
            lemma_park_keeps_others(p0, c, wake_time, reason, k);
            lemma_put_keeps_others(reg0, parked, k);
        }
    }
    assert forall|i: int| 0 <= i < reg.len() && (#[trigger] reg[i]).status == CardStatus::Parked
        implies tracks(p1, reg[i].id) by {
        let k = reg[i].id;
        crate::registry::lemma_card_index(reg, i);
        if k != c.id {
            lemma_put_keeps_others(reg0, parked, k);
            lemma_park_keeps_others(p0, c, wake_time, reason, k);
            let j0 = card_index(reg0, k);
            assert(reg0[j0].id == k);
        }
    }
}

/// Entries with the same ids in the same places track the same ids.
proof fn lemma_same_keys(p0: Seq<ParkedEntry>, p1: Seq<ParkedEntry>)
    requires
        p0.len() == p1.len(),
        forall|i: int| 0 <= i < p0.len() ==> crate::parking::key(#[trigger] p1[i]) == crate::parking::key(p0[i]),
    ensures
        forall|k: u128| tracks(p1, k) == tracks(p0, k),
{
    assert forall|k: u128| tracks(p1, k) == tracks(p0, k) by {
        if tracks(p1, k) {
            let j = choose|j: int| 0 <= j < p1.len() && #[trigger] crate::parking::key(p1[j]) == k;
            assert(crate::parking::key(p0[j]) == k);
        }
        if tracks(p0, k) {
            let j = choose|j: int| 0 <= j < p0.len() && #[trigger] crate::parking::key(p0[j]) == k;
            assert(crate::parking::key(p1[j]) == k);
        }
    }
}

/// Putting a card that is not parked, under an id that is not parked, keeps
/// the registry and the scheduler linked.
proof fn lemma_put_active(reg0: Seq<Card>, park: Seq<ParkedEntry>, c: Card)
    requires
        crate::registry::ids_unique(reg0),
        linked(reg0, park),
        crate::parking::entries_wf(park),
        c.status != CardStatus::Parked,
        !tracks(park, c.id),
    ensures
        linked(put_spec(reg0, c), park),
{
    let reg = put_spec(reg0, c);
    crate::registry::lemma_put(reg0, c);
    assert forall|k: u128| tracks(park, k) implies has_card(reg, k)
        && reg[card_index(reg, k)].status == CardStatus::Parked by {
        lemma_put_keeps_others(reg0, c, k);
    }
    assert forall|i: int| 0 <= i < reg.len() && (#[trigger] reg[i]).status == CardStatus::Parked
        implies tracks(park, reg[i].id) by {
        let k = reg[i].id;
        crate::registry::lemma_card_index(reg, i);
        if k == c.id {
            assert(reg[card_index(reg, k)] == c);
        } else {
            lemma_put_keeps_others(reg0, c, k);
            let j0 = card_index(reg0, k);
            assert(reg0[j0].id == k);
        }
    }
}

/// A registry card is parked exactly when the scheduler tracks its id, and
/// every tracked id names a registry card.
pub proof fn lemma_parked_exactly_when_tracked(e: &Engine, i: int)
    requires
        e.wf(),
        0 <= i < e.cards().len(),
    ensures
        (e.cards()[i].status == CardStatus::Parked) == tracks(e.parked(), e.cards()[i].id),
        forall|k: u128| tracks(e.parked(), k) ==> has_card(e.cards(), k),
{
    let reg = e.cards();
    crate::registry::lemma_card_index(reg, i);
}

} // verus!
