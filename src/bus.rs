//! The event bus: lossy fan-out of named events to every subscriber, each
//! with a bounded queue that drops its oldest item when full.

use vstd::prelude::*;
use crate::altimeter::{recommend_altitude, recommended, AltimeterProgress};
use crate::card::Altitude;

verus! {

/// A published event: a name and an opaque payload.
#[derive(Clone, Debug)]
pub struct BusEvent {
    pub event: String,
    pub data: String,
}

/// What a subscriber receives: the state on joining, a periodic progress
/// report, or a published event.
#[derive(Clone, Debug)]
pub enum Delivery {
    Hydrate(String),
    Heartbeat { progress: AltimeterProgress, altitude: Altitude },
    Event(BusEvent),
}

/// The published events among the deliveries, in order.
pub open spec fn events_of(h: Seq<Delivery>) -> Seq<BusEvent>
    decreases h.len(),
{
    if h.len() == 0 {
        Seq::empty()
    } else {
        match h.last() {
            Delivery::Event(e) => events_of(h.drop_last()).push(e),
            _ => events_of(h.drop_last()),
        }
    }
}

/// How many heartbeats are among the deliveries.
pub open spec fn beat_count(h: Seq<Delivery>) -> nat
    decreases h.len(),
{
    if h.len() == 0 {
        0
    } else {
        beat_count(h.drop_last()) + match h.last() {
            Delivery::Heartbeat { .. } => 1nat,
            _ => 0nat,
        }
    }
}

/// How many hydrate deliveries are among the deliveries.
pub open spec fn hydrate_count(h: Seq<Delivery>) -> nat
    decreases h.len(),
{
    if h.len() == 0 {
        0
    } else {
        hydrate_count(h.drop_last()) + match h.last() {
            Delivery::Hydrate(_) => 1nat,
            _ => 0nat,
        }
    }
}

/// A queue after one more delivery: the oldest item leaves when the queue is full.
pub open spec fn enqueue(q: Seq<Delivery>, d: Delivery, capacity: nat) -> Seq<Delivery> {
    if q.len() >= capacity {
        q.drop_first().push(d)
    } else {
        q.push(d)
    }
}

fn copy_delivery(d: &Delivery) -> (r: Delivery)
    ensures
        r == *d,
{
    match d {
        Delivery::Hydrate(s) => Delivery::Hydrate(s.clone()),
        Delivery::Heartbeat { progress, altitude } => Delivery::Heartbeat { progress: *progress, altitude: *altitude },
        Delivery::Event(e) => Delivery::Event(BusEvent { event: e.event.clone(), data: e.data.clone() }),
    }
}

struct Subscriber {
    id: u64,
    queue: Vec<Delivery>,
    history: Ghost<Seq<Delivery>>,
    joined_at: Ghost<nat>,
    beats_at_join: Ghost<nat>,
}

/// Everything a subscriber was ever handed, and the queue it holds: the
/// queue is the newest part of that history; the history opens with the one
/// hydrate delivery, holds the events published since it joined, in order,
/// and one heartbeat per beat since then.
spec fn subscriber_wf(s: Subscriber, log: Seq<BusEvent>, beats: nat, capacity: nat) -> bool {
    let h = s.history@;
    &&& s.queue@.len() <= capacity
    &&& s.queue@.len() <= h.len()
    &&& s.queue@ == h.subrange(h.len() - s.queue@.len(), h.len() as int)
    &&& h.len() >= 1
    &&& h[0] is Hydrate
    &&& hydrate_count(h) == 1
    &&& s.joined_at@ <= log.len()
    &&& events_of(h) == log.subrange(s.joined_at@ as int, log.len() as int)
    &&& s.beats_at_join@ <= beats
    &&& beat_count(h) == beats - s.beats_at_join@
}

pub struct EventBus {
    capacity: usize,
    next_id: u64,
    subscribers: Vec<Subscriber>,
    log: Ghost<Seq<BusEvent>>,
    beats: Ghost<nat>,
}

proof fn lemma_counts_push(h: Seq<Delivery>, d: Delivery)
    ensures
        events_of(h.push(d)) == match d {
            Delivery::Event(e) => events_of(h).push(e),
            _ => events_of(h),
        },
        beat_count(h.push(d)) == beat_count(h) + match d {
            Delivery::Heartbeat { .. } => 1nat,
            _ => 0nat,
        },
        hydrate_count(h.push(d)) == hydrate_count(h) + match d {
            Delivery::Hydrate(_) => 1nat,
            _ => 0nat,
        },
{
    assert(h.push(d).drop_last() =~= h);
}

impl EventBus {
    pub closed spec fn wf(&self) -> bool {
        &&& self.capacity > 0
        &&& forall|i: int| 0 <= i < self.subscribers@.len()
            ==> subscriber_wf(#[trigger] self.subscribers@[i], self.log@, self.beats@, self.capacity as nat)
        &&& forall|i: int, j: int| 0 <= i < self.subscribers@.len() && 0 <= j < self.subscribers@.len() && i != j
            ==> (#[trigger] self.subscribers@[i]).id != (#[trigger] self.subscribers@[j]).id
        &&& forall|i: int| 0 <= i < self.subscribers@.len() ==> (#[trigger] self.subscribers@[i]).id < self.next_id
    }

    /// How many items a subscriber's queue holds at most.
    pub closed spec fn capacity_of(&self) -> nat {
        self.capacity as nat
    }

    /// Every event published so far, in order.
    pub closed spec fn log(&self) -> Seq<BusEvent> {
        self.log@
    }

    /// How many heartbeats have gone out so far.
    pub closed spec fn beats(&self) -> nat {
        self.beats@
    }

    /// The subscribers' ids, in the order they joined.
    pub closed spec fn ids(&self) -> Seq<u64> {
        self.subscribers@.map_values(|s: Subscriber| s.id)
    }

    /// What subscriber number `i` holds, oldest first.
    pub closed spec fn queue(&self, i: int) -> Seq<Delivery> {
        self.subscribers@[i].queue@
    }

    /// Everything subscriber number `i` was ever handed, oldest first.
    pub closed spec fn history(&self, i: int) -> Seq<Delivery> {
        self.subscribers@[i].history@
    }

    /// How many events had been published when subscriber number `i` joined.
    pub closed spec fn joined_at(&self, i: int) -> nat {
        self.subscribers@[i].joined_at@
    }

    /// How many heartbeats had gone out when subscriber number `i` joined.
    pub closed spec fn beats_at_join(&self, i: int) -> nat {
        self.subscribers@[i].beats_at_join@
    }

    /// A bus with no subscribers whose queues hold at most `capacity` items.
    pub fn new(capacity: usize) -> (r: EventBus)
        requires
            capacity > 0,
        ensures
            r.wf(),
            r.capacity_of() == capacity,
            r.ids().len() == 0,
            r.log().len() == 0,
            r.beats() == 0,
            r.ids_left(),
    {
        let r = EventBus {
            capacity,
            next_id: 0,
            subscribers: Vec::new(),
            log: Ghost(Seq::empty()),
            beats: Ghost(0),
        };
        assert(r.ids() =~= Seq::<u64>::empty());
        r
    }

    /// Some subscriber id is still free.
    pub closed spec fn ids_left(&self) -> bool {
        self.next_id < u64::MAX
    }

    /// Adds a subscriber whose queue opens with the hydrate delivery; `None`
    /// exactly when every id is used.
    pub fn subscribe(&mut self, hydrate: String) -> (r: Option<u64>)
        requires
            old(self).wf(),
        ensures
            final(self).wf(),
            final(self).log() == old(self).log(),
            final(self).beats() == old(self).beats(),
            final(self).capacity_of() == old(self).capacity_of(),
            r is Some <==> old(self).ids_left(),
            match r {
                None => final(self).ids() == old(self).ids(),
                Some(id) => {
                    let n = old(self).ids().len() as int;
                    &&& !old(self).ids().contains(id)
                    &&& final(self).ids() == old(self).ids().push(id)
                    &&& final(self).queue(n) == seq![Delivery::Hydrate(hydrate)]
                    &&& final(self).history(n) == seq![Delivery::Hydrate(hydrate)]
                    &&& final(self).joined_at(n) == old(self).log().len()
                    &&& final(self).beats_at_join(n) == old(self).beats()
                },
            },
            forall|i: int| 0 <= i < old(self).ids().len() ==> {
                &&& #[trigger] final(self).queue(i) == old(self).queue(i)
                &&& final(self).history(i) == old(self).history(i)
                &&& final(self).joined_at(i) == old(self).joined_at(i)
            },
    {
        if self.next_id == u64::MAX {
            return None;
        }
        let id = self.next_id;
        let first = Delivery::Hydrate(hydrate);
        let ghost h = seq![first];
        proof {
            lemma_counts_push(Seq::empty(), first);
            assert(Seq::<Delivery>::empty().push(first) == h);
            assert(self.log@.subrange(self.log@.len() as int, self.log@.len() as int) =~= Seq::<BusEvent>::empty());
            assert(events_of(Seq::empty()) == Seq::<BusEvent>::empty());
            assert(h.subrange(0, 1) =~= h);
        }
        let queue = vec![first];
        let sub = Subscriber {
            id,
            queue,
            history: Ghost(h),
            joined_at: Ghost(self.log@.len()),
            beats_at_join: Ghost(self.beats@),
        };
        let ghost before = self.subscribers@;
        self.subscribers.push(sub);
        self.next_id = id + 1;
        proof {
            let n = before.len() as int;
            let ns = self.subscribers@[n];
            assert(ns.queue@ == seq![first]);
            assert(ns.history@ == h);
            assert(h[0] is Hydrate);
            assert(hydrate_count(h) == 1);
            assert(events_of(h) == Seq::<BusEvent>::empty());
            assert(beat_count(h) == 0);
            assert(subscriber_wf(ns, self.log@, self.beats@, self.capacity as nat));
            assert forall|a: int| 0 <= a < self.subscribers@.len() implies subscriber_wf(
                #[trigger] self.subscribers@[a], self.log@, self.beats@, self.capacity as nat) by {
                if a < n {
                    assert(self.subscribers@[a] == before[a]);
                }
            }
            assert forall|a: int| 0 <= a < self.subscribers@.len() implies (#[trigger] self.subscribers@[a]).id < self.next_id by {
                if a < n {
                    assert(self.subscribers@[a] == before[a]);
                }
            }
            assert forall|a: int, b: int| 0 <= a < self.subscribers@.len() && 0 <= b < self.subscribers@.len() && a != b
                implies (#[trigger] self.subscribers@[a]).id != (#[trigger] self.subscribers@[b]).id by {
                if a < n && b < n {
                    assert(self.subscribers@[a] == before[a]);
                    assert(self.subscribers@[b] == before[b]);
                } else if a < n {
                    assert(self.subscribers@[a] == before[a]);
                } else if b < n {
                    assert(self.subscribers@[b] == before[b]);
                }
            }
            let old_ids = before.map_values(|s: Subscriber| s.id);
            assert(self.ids() =~= old_ids.push(id));
            if old_ids.contains(id) {
                let k = choose|k: int| 0 <= k < old_ids.len() && #[trigger] old_ids[k] == id;
                assert(before[k].id < id);
            }
        }
        Some(id)
    }

    /// Removes the subscriber `id`; false where there is none.
    pub fn unsubscribe(&mut self, id: u64) -> (r: bool)
        requires
            old(self).wf(),
        ensures
            final(self).wf(),
            r == old(self).ids().contains(id),
            final(self).log() == old(self).log(),
            final(self).beats() == old(self).beats(),
            final(self).capacity_of() == old(self).capacity_of(),
            final(self).ids_left() == old(self).ids_left(),
            !final(self).ids().contains(id),
            r ==> final(self).ids().len() == old(self).ids().len() - 1,
            !r ==> final(self).ids() == old(self).ids(),
    {
        match self.index_of(id) {
            None => {
                proof {
                    if self.ids().contains(id) {
                        let k = choose|k: int| 0 <= k < self.ids().len() && self.ids()[k] == id;
                        assert(self.subscribers@[k].id == id);
                    }
                }
                false
            },
            Some(i) => {
                let ghost before = self.subscribers@;
                self.subscribers.remove(i);
                proof {
                    assert(before.map_values(|s: Subscriber| s.id)[i as int] == id);
                    assert(self.ids() =~= before.map_values(|s: Subscriber| s.id).remove(i as int));
                    assert forall|a: int| 0 <= a < self.subscribers@.len()
                        implies (#[trigger] self.subscribers@[a]).id != id by {
                        if a < i {
                            assert(self.subscribers@[a] == before[a]);
                        } else {
                            assert(self.subscribers@[a] == before[a + 1]);
                        }
                    }
                    assert forall|a: int, b: int| 0 <= a < self.subscribers@.len() && 0 <= b < self.subscribers@.len() && a != b
                        implies (#[trigger] self.subscribers@[a]).id != (#[trigger] self.subscribers@[b]).id by {
                        let sa = if a < i { a } else { a + 1 };
                        let sb = if b < i { b } else { b + 1 };
                        assert(self.subscribers@[a] == before[sa]);
                        assert(self.subscribers@[b] == before[sb]);
                    }
                    assert forall|a: int| 0 <= a < self.subscribers@.len() implies subscriber_wf(
                        #[trigger] self.subscribers@[a], self.log@, self.beats@, self.capacity as nat) by {
                        let sa = if a < i { a } else { a + 1 };
                        assert(self.subscribers@[a] == before[sa]);
                    }
                    assert forall|a: int| 0 <= a < self.subscribers@.len() implies (#[trigger] self.subscribers@[a]).id < self.next_id by {
                        let sa = if a < i { a } else { a + 1 };
                        assert(self.subscribers@[a] == before[sa]);
                    }
                    if self.ids().contains(id) {
                        let k = choose|k: int| 0 <= k < self.ids().len() && self.ids()[k] == id;
                        assert(self.subscribers@[k].id == id);
                    }
                    let old_ids = before.map_values(|s: Subscriber| s.id);
                    assert(old_ids[i as int] == id);
                }
                true
            },
        }
    }

    /// Hands `d` to every subscriber: each history grows by `d`, and each
    /// queue takes it, dropping its oldest item when full.
    fn fan_out(&mut self, d: &Delivery)
        requires
            old(self).capacity > 0,
        ensures
            final(self).capacity == old(self).capacity,
            final(self).next_id == old(self).next_id,
            final(self).log == old(self).log,
            final(self).beats == old(self).beats,
            final(self).subscribers@.len() == old(self).subscribers@.len(),
            forall|i: int| 0 <= i < old(self).subscribers@.len() ==> {
                let a = old(self).subscribers@[i];
                let b = #[trigger] final(self).subscribers@[i];
                &&& b.id == a.id
                &&& b.queue@ == enqueue(a.queue@, *d, old(self).capacity as nat)
                &&& b.history@ == a.history@.push(*d)
                &&& b.joined_at == a.joined_at
                &&& b.beats_at_join == a.beats_at_join
            },
    {
        let ghost orig = self.subscribers@;
        let mut rest: Vec<Subscriber> = Vec::new();
        std::mem::swap(&mut self.subscribers, &mut rest);
        let mut done: Vec<Subscriber> = Vec::new();
        while rest.len() > 0
            invariant
                self.capacity > 0,
                done@.len() + rest@.len() == orig.len(),
                rest@ == orig.subrange(done@.len() as int, orig.len() as int),
                forall|i: int| 0 <= i < done@.len() ==> {
                    let a = orig[i];
                    let b = #[trigger] done@[i];
                    &&& b.id == a.id
                    &&& b.queue@ == enqueue(a.queue@, *d, self.capacity as nat)
                    &&& b.history@ == a.history@.push(*d)
                    &&& b.joined_at == a.joined_at
                    &&& b.beats_at_join == a.beats_at_join
                },
            decreases rest@.len(),
        {
            let ghost k = done@.len() as int;
            assert(rest@[0] == orig[k]);
            let mut sub = rest.remove(0);
            if sub.queue.len() >= self.capacity {
                sub.queue.remove(0);
            }
            sub.queue.push(copy_delivery(d));
            proof {
                sub.history@ = sub.history@.push(*d);
            }
            done.push(sub);
            assert(rest@ =~= orig.subrange(done@.len() as int, orig.len() as int));
        }
        self.subscribers = done;
    }

    proof fn lemma_delivered(a: Subscriber, b: Subscriber, d: Delivery, log: Seq<BusEvent>, new_log: Seq<BusEvent>,
        beats: nat, new_beats: nat, capacity: nat)
        requires
            subscriber_wf(a, log, beats, capacity),
            capacity > 0,
            b.queue@ == enqueue(a.queue@, d, capacity),
            b.history@ == a.history@.push(d),
            b.joined_at == a.joined_at,
            b.beats_at_join == a.beats_at_join,
            !(d is Hydrate),
            new_log == match d {
                Delivery::Event(e) => log.push(e),
                _ => log,
            },
            new_beats == beats + match d {
                Delivery::Heartbeat { .. } => 1nat,
                _ => 0nat,
            },
        ensures
            subscriber_wf(b, new_log, new_beats, capacity),
    {
        lemma_counts_push(a.history@, d);
        let h = b.history@;
        assert(b.queue@ =~= h.subrange(h.len() - b.queue@.len(), h.len() as int));
        assert(h[0] == a.history@[0]);
        if let Delivery::Event(e) = d {
            assert(new_log.subrange(a.joined_at@ as int, new_log.len() as int)
                =~= log.subrange(a.joined_at@ as int, log.len() as int).push(e));
        }
    }

    /// Publishes `event` to every subscriber.
    pub fn publish(&mut self, event: BusEvent)
        requires
            old(self).wf(),
        ensures
            final(self).wf(),
            final(self).log() == old(self).log().push(event),
            final(self).beats() == old(self).beats(),
            final(self).capacity_of() == old(self).capacity_of(),
            final(self).ids_left() == old(self).ids_left(),
            final(self).ids() == old(self).ids(),
            forall|i: int| 0 <= i < old(self).ids().len() ==> {
                &&& #[trigger] final(self).queue(i) == enqueue(old(self).queue(i), Delivery::Event(event), old(self).capacity_of())
                &&& final(self).history(i) == old(self).history(i).push(Delivery::Event(event))
                &&& final(self).joined_at(i) == old(self).joined_at(i)
            },
    {
        let ghost before = self.subscribers@;
        let ghost old_log = self.log@;
        let d = Delivery::Event(event);
        self.fan_out(&d);
        proof {
            self.log@ = old_log.push(event);
            assert forall|i: int| 0 <= i < self.subscribers@.len() implies subscriber_wf(
                #[trigger] self.subscribers@[i], self.log@, self.beats@, self.capacity as nat) by {
                Self::lemma_delivered(before[i], self.subscribers@[i], d, old_log, self.log@,
                    self.beats@, self.beats@, self.capacity as nat);
            }
            assert(self.ids() =~= before.map_values(|s: Subscriber| s.id));
        }
    }

    /// Sends a heartbeat with the current progress, and the altitude it
    /// recommends, to every subscriber.
    pub fn heartbeat(&mut self, progress: AltimeterProgress)
        requires
            old(self).wf(),
        ensures
            final(self).wf(),
            final(self).log() == old(self).log(),
            final(self).beats() == old(self).beats() + 1,
            final(self).capacity_of() == old(self).capacity_of(),
            final(self).ids_left() == old(self).ids_left(),
            final(self).ids() == old(self).ids(),
            forall|i: int| 0 <= i < old(self).ids().len() ==> {
                &&& #[trigger] final(self).queue(i) == enqueue(old(self).queue(i), Delivery::Heartbeat { progress, altitude: recommended(progress) }, old(self).capacity_of())
                &&& final(self).history(i) == old(self).history(i).push(Delivery::Heartbeat { progress, altitude: recommended(progress) })
                &&& final(self).joined_at(i) == old(self).joined_at(i)
            },
    {
        let ghost before = self.subscribers@;
        let ghost old_beats = self.beats@;
        let altitude = recommend_altitude(&progress).0;
        let d = Delivery::Heartbeat { progress, altitude };
        self.fan_out(&d);
        proof {
            self.beats@ = old_beats + 1;
            assert forall|i: int| 0 <= i < self.subscribers@.len() implies subscriber_wf(
                #[trigger] self.subscribers@[i], self.log@, self.beats@, self.capacity as nat) by {
                Self::lemma_delivered(before[i], self.subscribers@[i], d, self.log@, self.log@,
                    old_beats, self.beats@, self.capacity as nat);
            }
            assert(self.ids() =~= before.map_values(|s: Subscriber| s.id));
        }
    }

    /// Takes the oldest item from the queue of subscriber `id`; `None` where
    /// the queue is empty or there is no such subscriber.
    pub fn poll(&mut self, id: u64) -> (r: Option<Delivery>)
        requires
            old(self).wf(),
        ensures
            final(self).wf(),
            final(self).log() == old(self).log(),
            final(self).beats() == old(self).beats(),
            final(self).capacity_of() == old(self).capacity_of(),
            final(self).ids_left() == old(self).ids_left(),
            final(self).ids() == old(self).ids(),
            forall|i: int| 0 <= i < old(self).ids().len() ==> {
                &&& #[trigger] final(self).history(i) == old(self).history(i)
                &&& final(self).joined_at(i) == old(self).joined_at(i)
            },
            forall|i: int| 0 <= i < old(self).ids().len() && old(self).ids()[i] != id
                ==> #[trigger] final(self).queue(i) == old(self).queue(i),
            !old(self).ids().contains(id) ==> r is None,
            forall|i: int| 0 <= i < old(self).ids().len() && #[trigger] old(self).ids()[i] == id ==> {
                if old(self).queue(i).len() == 0 {
                    r is None && final(self).queue(i) == old(self).queue(i)
                } else {
                    r == Some(old(self).queue(i)[0]) && final(self).queue(i) == old(self).queue(i).drop_first()
                }
            },
    {
        let ghost ids0 = self.ids();
        match self.index_of(id) {
            None => {
                proof {
                    if ids0.contains(id) {
                        let k = choose|k: int| 0 <= k < ids0.len() && ids0[k] == id;
                        assert(self.subscribers@[k].id == id);
                    }
                }
                None
            },
            Some(i) => {
                if self.subscribers[i].queue.len() == 0 {
                    proof {
                        assert forall|j: int| 0 <= j < ids0.len() && #[trigger] ids0[j] == id implies j == i by {
                            assert(self.subscribers@[j].id == id);
                        }
                    }
                    return None;
                }
                let ghost before = self.subscribers@;
                assert(ids0[i as int] == id);
                let mut sub = self.subscribers.remove(i);
                let item = sub.queue.remove(0);
                self.subscribers.insert(i, sub);
                proof {
                    let a = before[i as int];
                    let b = self.subscribers@[i as int];
                    let h = a.history@;
                    assert(b.queue@ =~= h.subrange(h.len() - b.queue@.len(), h.len() as int));
                    assert forall|j: int| 0 <= j < self.subscribers@.len() implies #[trigger] self.subscribers@[j] == before[j]
                        || j == i by {}
                    assert(self.ids() =~= before.map_values(|s: Subscriber| s.id));
                    assert forall|j: int| 0 <= j < ids0.len() && #[trigger] ids0[j] == id implies j == i by {
                        assert(before[j].id == id);
                    }
                }
                Some(item)
            },
        }
    }

    fn index_of(&self, id: u64) -> (r: Option<usize>)
        requires
            self.wf(),
        ensures
            match r {
                Some(i) => i < self.subscribers@.len() && self.subscribers@[i as int].id == id,
                None => forall|j: int| 0 <= j < self.subscribers@.len() ==> (#[trigger] self.subscribers@[j]).id != id,
            },
    {
        let mut i: usize = 0;
        while i < self.subscribers.len()
            invariant
                i <= self.subscribers@.len(),
                forall|j: int| 0 <= j < i ==> (#[trigger] self.subscribers@[j]).id != id,
            decreases self.subscribers@.len() - i,
        {
            if self.subscribers[i].id == id {
                return Some(i);
            }
            i = i + 1;
        }
        None
    }
}

/// A subscriber is handed exactly the events published from its joining on,
/// in publish order, one hydrate delivery, first, and one heartbeat for each
/// beat since it joined; its queue holds the newest part of that, in order.
pub proof fn lemma_subscriber_sees_from_join(bus: &EventBus, i: int)
    requires
        bus.wf(),
        0 <= i < bus.ids().len(),
    ensures
        events_of(bus.history(i)) == bus.log().subrange(bus.joined_at(i) as int, bus.log().len() as int),
        bus.history(i).len() >= 1,
        bus.history(i)[0] is Hydrate,
        hydrate_count(bus.history(i)) == 1,
        beat_count(bus.history(i)) == bus.beats() - bus.beats_at_join(i),
        bus.queue(i).len() <= bus.capacity_of(),
        bus.queue(i) == bus.history(i).subrange(
            bus.history(i).len() - bus.queue(i).len(),
            bus.history(i).len() as int,
        ),
{
    assert(subscriber_wf(bus.subscribers@[i], bus.log@, bus.beats@, bus.capacity as nat));
}

} // verus!
