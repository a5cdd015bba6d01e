//! The feed composer: active cards ordered by altitude and cut to a limit.

use vstd::prelude::*;
use crate::altimeter::{calculate_progress, progress_of, recommend_altitude, recommended};
use crate::card::{Altitude, Card, CardStatus, Duplicate};

verus! {

/// The card shows in a feed restricted to `filter`.
pub open spec fn shown(c: Card, filter: Option<Altitude>) -> bool {
    c.status == CardStatus::Active && match filter {
        Some(a) => c.altitude == a,
        None => true,
    }
}

/// The shown cards of altitude `alt`, in their order.
pub open spec fn tier(s: Seq<Card>, alt: Altitude, filter: Option<Altitude>) -> Seq<Card>
    decreases s.len(),
{
    if s.len() == 0 {
        Seq::empty()
    } else if shown(s.last(), filter) && s.last().altitude == alt {
        tier(s.drop_last(), alt, filter).push(s.last())
    } else {
        tier(s.drop_last(), alt, filter)
    }
}

/// The shown cards, do first, then ship, amplify and orient; cards of one
/// altitude keep their relative order.
pub open spec fn ordered(s: Seq<Card>, filter: Option<Altitude>) -> Seq<Card> {
    tier(s, Altitude::Do, filter) + tier(s, Altitude::Ship, filter)
        + tier(s, Altitude::Amplify, filter) + tier(s, Altitude::Orient, filter)
}

/// What the feed shows.
#[derive(Clone, Debug)]
pub struct Feed {
    pub cards: Vec<Card>,
    pub current_altitude: Altitude,
    pub parked_count: usize,
}

fn append_tier(out: &mut Vec<Card>, cards: &Vec<Card>, alt: Altitude, filter: Option<Altitude>)
    ensures
        final(out)@.len() == old(out)@.len() + tier(cards@, alt, filter).len(),
        forall|i: int| 0 <= i < old(out)@.len() ==> #[trigger] final(out)@[i] == old(out)@[i],
        forall|j: int| 0 <= j < tier(cards@, alt, filter).len()
            ==> (#[trigger] final(out)@[old(out)@.len() + j]).is_copy_of(&tier(cards@, alt, filter)[j]),
{
    let ghost start = out@;
    let mut i: usize = 0;
    while i < cards.len()
        invariant
            i <= cards@.len(),
            out@.len() == start.len() + tier(cards@.subrange(0, i as int), alt, filter).len(),
            forall|k: int| 0 <= k < start.len() ==> #[trigger] out@[k] == start[k],
            forall|j: int| 0 <= j < tier(cards@.subrange(0, i as int), alt, filter).len()
                ==> (#[trigger] out@[start.len() + j]).is_copy_of(
                    &tier(cards@.subrange(0, i as int), alt, filter)[j]),
        decreases cards@.len() - i,
    {
        let ghost pre = cards@.subrange(0, i as int);
        assert(cards@.subrange(0, i as int + 1).drop_last() =~= pre);
        let c = &cards[i];
        let is_shown = c.status == CardStatus::Active && match filter {
            Some(a) => c.altitude == a,
            None => true,
        };
        if is_shown && c.altitude == alt {
            out.push(c.duplicate());
        }
        i = i + 1;
    }
    assert(cards@.subrange(0, cards@.len() as int) =~= cards@);
}

pub struct FeedService {
    pinned: Option<Altitude>,
}

impl FeedService {
    pub fn new() -> (r: FeedService)
        ensures
            r.pinned_altitude() is None,
    {
        FeedService { pinned: None }
    }

    pub closed spec fn pinned_altitude(&self) -> Option<Altitude> {
        self.pinned
    }

    /// The altitude the user pinned, or else the classifier's recommendation.
    pub open spec fn current_of(&self, cards: Seq<Card>) -> Altitude {
        match self.pinned_altitude() {
            Some(a) => a,
            None => recommended(progress_of(cards)),
        }
    }

    /// Pins the current altitude.
    pub fn set_altitude(&mut self, altitude: Altitude)
        ensures
            final(self).pinned_altitude() == Some(altitude),
    {
        self.pinned = Some(altitude);
    }

    pub fn get_current_altitude(&self, cards: &Vec<Card>) -> (r: Altitude)
        ensures
            r == self.current_of(cards@),
    {
        match self.pinned {
            Some(a) => a,
            None => {
                let progress = calculate_progress(cards);
                recommend_altitude(&progress).0
            },
        }
    }

    /// The active cards (of one altitude where `filter` names one), ordered
    /// do, ship, amplify, orient with ties in their order, cut to `limit`;
    /// with the current altitude and the number of parked cards.
    pub fn get_feed(&self, cards: &Vec<Card>, filter: Option<Altitude>, limit: usize, parked_count: usize) -> (r: Feed)
        ensures
            r.cards@.len() == if limit < ordered(cards@, filter).len() {
                limit as int
            } else {
                ordered(cards@, filter).len() as int
            },
            forall|i: int| 0 <= i < r.cards@.len()
                ==> (#[trigger] r.cards@[i]).is_copy_of(&ordered(cards@, filter)[i]),
            r.current_altitude == self.current_of(cards@),
            r.parked_count == parked_count,
    {
        let mut out: Vec<Card> = Vec::new();
        let ghost o0 = out@;
        append_tier(&mut out, cards, Altitude::Do, filter);
        let ghost o1 = out@;
        append_tier(&mut out, cards, Altitude::Ship, filter);
        let ghost o2 = out@;
        append_tier(&mut out, cards, Altitude::Amplify, filter);
        let ghost o3 = out@;
        append_tier(&mut out, cards, Altitude::Orient, filter);
        proof {
            let t1 = tier(cards@, Altitude::Do, filter);
            let t2 = tier(cards@, Altitude::Ship, filter);
            let t3 = tier(cards@, Altitude::Amplify, filter);
            let t4 = tier(cards@, Altitude::Orient, filter);
            let all = ordered(cards@, filter);
            assert forall|i: int| 0 <= i < out@.len() implies (#[trigger] out@[i]).is_copy_of(&all[i]) by {
                if i < t1.len() {
                    assert(o1[o0.len() + i].is_copy_of(&t1[i]));
                    assert(o2[i] == o1[i]);
                    assert(o3[i] == o2[i]);
                } else if i < t1.len() + t2.len() {
                    assert(o2[t1.len() + (i - t1.len())].is_copy_of(&t2[i - t1.len()]));
                    assert(o3[i] == o2[i]);
                } else if i < t1.len() + t2.len() + t3.len() {
                    assert(o3[o2.len() + (i - o2.len())].is_copy_of(&t3[i - o2.len()]));
                } else {
                    assert(out@[o3.len() + (i - o3.len())].is_copy_of(&t4[i - o3.len()]));
                }
            }
        }
        out.truncate(limit);
        let current_altitude = self.get_current_altitude(cards);
        Feed { cards: out, current_altitude, parked_count }
    }
}

} // verus!
