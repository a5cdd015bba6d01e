//! The card registry: every known card, by id, in creation order.

use vstd::prelude::*;
use crate::card::Card;

verus! {

pub open spec fn has_card(s: Seq<Card>, id: u128) -> bool {
    exists|i: int| 0 <= i < s.len() && #[trigger] s[i].id == id
}

pub open spec fn card_index(s: Seq<Card>, id: u128) -> int {
    choose|i: int| 0 <= i < s.len() && #[trigger] s[i].id == id
}

/// No two cards share an id.
pub open spec fn ids_unique(s: Seq<Card>) -> bool {
    forall|i: int, j: int| 0 <= i < s.len() && 0 <= j < s.len() && i != j
        ==> (#[trigger] s[i]).id != (#[trigger] s[j]).id
}

/// The cards after `put(card)`: a card with the same id is replaced where it
/// stands; otherwise the card is added last.
pub open spec fn put_spec(s: Seq<Card>, card: Card) -> Seq<Card> {
    if has_card(s, card.id) {
        s.update(card_index(s, card.id), card)
    } else {
        s.push(card)
    }
}

pub(crate) proof fn lemma_card_index(s: Seq<Card>, i: int)
    requires
        ids_unique(s),
        0 <= i < s.len(),
    ensures
        has_card(s, s[i].id),
        card_index(s, s[i].id) == i,
{
    assert(has_card(s, s[i].id));
}

pub(crate) proof fn lemma_put(s: Seq<Card>, card: Card)
    requires
        ids_unique(s),
    ensures
        ids_unique(put_spec(s, card)),
        has_card(put_spec(s, card), card.id),
        put_spec(s, card)[card_index(put_spec(s, card), card.id)] == card,
{
    let p = put_spec(s, card);
    if has_card(s, card.id) {
        let k = card_index(s, card.id);
        assert forall|i: int, j: int| 0 <= i < p.len() && 0 <= j < p.len() && i != j
            implies (#[trigger] p[i]).id != (#[trigger] p[j]).id by {
            assert(s[k].id == card.id);
        }
        lemma_card_index(p, k);
    } else {
        assert forall|i: int, j: int| 0 <= i < p.len() && 0 <= j < p.len() && i != j
            implies (#[trigger] p[i]).id != (#[trigger] p[j]).id by {
            if i < s.len() && j < s.len() {
            } else if i < s.len() {
                assert(s[i].id != card.id);
            } else {
                assert(s[j].id != card.id);
            }
        }
        lemma_card_index(p, s.len() as int);
    }
}

/// A put leaves the cards of other ids where and as they were.
pub proof fn lemma_put_keeps_others(s: Seq<Card>, card: Card, k: u128)
    requires
        ids_unique(s),
        k != card.id,
    ensures
        has_card(put_spec(s, card), k) == has_card(s, k),
        has_card(s, k) ==> put_spec(s, card)[card_index(put_spec(s, card), k)] == s[card_index(s, k)],
{
    lemma_put(s, card);
    let p = put_spec(s, card);
    if has_card(s, k) {
        let i = card_index(s, k);
        assert(s[i].id == k);
        if has_card(s, card.id) {
            assert(p[i] == s[i]);
        } else {
            assert(p[i] == s[i]);
        }
        lemma_card_index(p, i);
    }
    if has_card(p, k) {
        let j = card_index(p, k);
        assert(p[j].id == k);
        if j < s.len() {
            assert(s[j].id == k);
        }
    }
}

/// Putting the same card twice leaves the registry as one put does.
pub proof fn lemma_put_idempotent(s: Seq<Card>, card: Card)
    requires
        ids_unique(s),
    ensures
        put_spec(put_spec(s, card), card) == put_spec(s, card),
{
    lemma_put(s, card);
    let p = put_spec(s, card);
    assert(put_spec(p, card) =~= p);
}

pub struct CardRegistry {
    cards: Vec<Card>,
}

impl View for CardRegistry {
    type V = Seq<Card>;

    closed spec fn view(&self) -> Seq<Card> {
        self.cards@
    }
}

impl CardRegistry {
    pub open spec fn wf(&self) -> bool {
        ids_unique(self@)
    }

    pub fn new() -> (r: CardRegistry)
        ensures
            r.wf(),
            r@ == Seq::<Card>::empty(),
    {
        CardRegistry { cards: Vec::new() }
    }

    fn position(&self, id: u128) -> (r: Option<usize>)
        requires
            self.wf(),
        ensures
            match r {
                Some(i) => has_card(self@, id) && i == card_index(self@, id) && i < self@.len(),
                None => !has_card(self@, id),
            },
    {
        let mut i: usize = 0;
        while i < self.cards.len()
            invariant
                self.wf(),
                i <= self.cards@.len(),
                forall|j: int| 0 <= j < i ==> (#[trigger] self.cards@[j]).id != id,
            decreases self.cards@.len() - i,
        {
            if self.cards[i].id == id {
                proof {
                    lemma_card_index(self.cards@, i as int);
                }
                return Some(i);
            }
            i = i + 1;
        }
        None
    }

    /// Inserts `card`, or replaces the card with its id in place.
    pub fn put(&mut self, card: Card)
        requires
            old(self).wf(),
        ensures
            final(self).wf(),
            final(self)@ == put_spec(old(self)@, card),
    {
        proof {
            lemma_put(self@, card);
        }
        match self.position(card.id) {
            Some(i) => {
                self.cards.set(i, card);
            },
            None => {
                self.cards.push(card);
            },
        }
    }

    /// The card with id `id`, if there is one.
    pub fn get(&self, id: u128) -> (r: Option<&Card>)
        requires
            self.wf(),
        ensures
            match r {
                Some(c) => has_card(self@, id) && *c == self@[card_index(self@, id)],
                None => !has_card(self@, id),
            },
    {
        match self.position(id) {
            Some(i) => Some(&self.cards[i]),
            None => None,
        }
    }

    /// All cards, in creation order.
    pub fn list(&self) -> (r: &Vec<Card>)
        ensures
            r@ == self@,
    {
        &self.cards
    }

    pub fn len(&self) -> (r: usize)
        ensures
            r == self@.len(),
    {
        self.cards.len()
    }
}

} // verus!
