//! The deck: an ordered stack of cards, the one worked state type.
//!
//! The last element of the sequence is the top of the stack, the only end
//! that pop and push touch. Order is significant and duplicate cards are
//! permitted; a deck is consumed and replaced on every transition, never
//! mutated through a reference.
use vstd::prelude::*;

use crate::act::Act;
use crate::act::Nothing;
use crate::act::Pop;
use crate::act::Push;
use crate::card::card_for;
use crate::card::card_of;
use crate::card::standard_deck;
use crate::card::Card;
use crate::engine::State;
use crate::error::EngineError;
use crate::shuffling::new_irs;
use crate::shuffling::shuffle_cards;

use rand::rngs::mock::StepRng;

verus! {

/// An ordered stack of cards. Viewed as the sequence of its cards, bottom
/// first, top last.
#[derive(Debug)]
pub struct Deck {
    inner: Vec<Card>,
}

impl View for Deck {
    type V = Seq<Card>;

    closed spec fn view(&self) -> Seq<Card> {
        self.inner@
    }
}

impl Clone for Deck {
    /// A clone holds exactly the cards of the original, in the same order.
    fn clone(&self) -> (res: Self)
        ensures
            res@ == self@,
    {
        let res = Deck { inner: self.inner.clone() };
        proof {
            assert(res@ =~= self@);
        }
        res
    }
}

impl Deck {
    /// An empty deck, pre-sized for a full pack.
    pub fn new() -> (r: Self)
        ensures
            r@ == Seq::<Card>::empty(),
    {
        Deck { inner: Vec::with_capacity(52) }
    }

    /// An empty deck, pre-sized as asked.
    pub fn with_capacity(capacity: usize) -> (r: Self)
        ensures
            r@ == Seq::<Card>::empty(),
    {
        Deck { inner: Vec::with_capacity(capacity) }
    }

    /// A full pack of 52 cards — thirteen ranks in each of the four suits,
    /// no jokers — in the pseudo-random order the shuffle provider chose
    /// from its default arithmetic source. Fails when the provider cannot
    /// label the pack from that source, and then no deck comes to exist.
    pub fn new_shuffled() -> (r: Result<Deck, EngineError>)
        ensures
            (r matches Ok(d) ==> d@.len() == 52 && d@.to_multiset()
                == standard_deck().to_multiset()),
            (r matches Err(e) ==> e == EngineError::ShuffleFailure),
    {
        let mut rng = StepRng::new(2, 13);
        Self::shuffled_with(&mut rng)
    }

    /// A full pack of 52 cards in the order the injected shuffle source
    /// chose. Whichever order that is, the pack is complete: the cards are
    /// exactly those of the standard deck. Fails only when the provider
    /// does, and then no deck comes to exist.
    pub fn shuffled_with(rng: &mut StepRng) -> (r: Result<Deck, EngineError>)
        ensures
            (r matches Ok(d) ==> d@.len() == 52 && d@.to_multiset()
                == standard_deck().to_multiset()),
            (r matches Err(e) ==> e == EngineError::ShuffleFailure),
    {
        let mut cards: Vec<Card> = Vec::with_capacity(52);
        let mut i: u8 = 0;
        while i < 52
            invariant
                i <= 52,
                cards@.len() == i as int,
                forall|j: int| 0 <= j < i as int ==> cards@[j] == card_for(j as u8),
            decreases 52 - i,
        {
            cards.push(card_of(i));
            i = i + 1;
        }
        proof {
            assert(cards@ =~= standard_deck());
        }
        let mut irs = new_irs();
        match shuffle_cards(&mut irs, &mut cards, rng) {
            Ok(()) => Ok(Deck { inner: cards }),
            Err(e) => Err(e),
        }
    }

    /// How many cards the deck holds.
    pub fn len(&self) -> (n: usize)
        ensures
            n == self@.len(),
    {
        self.inner.len()
    }

    /// The cards, bottom of the stack first.
    pub fn cards(&self) -> (r: &Vec<Card>)
        ensures
            r@ == self@,
    {
        &self.inner
    }

    /// Whether the two decks hold the same cards in the same order.
    pub fn same_cards(&self, other: &Deck) -> (b: bool)
        ensures
            b <==> self@ == other@,
    {
        if self.inner.len() != other.inner.len() {
            return false;
        }
        let mut i: usize = 0;
        while i < self.inner.len()
            invariant
                i <= self.inner.len(),
                self.inner.len() == other.inner.len(),
                forall|j: int| 0 <= j < i ==> self@[j] == other@[j],
            decreases self.inner.len() - i,
        {
            if self.inner[i] != other.inner[i] {
                return false;
            }
            i += 1;
        }
        proof {
            assert(self@ =~= other@);
        }
        true
    }

    /// Remove the top card, handing back the push act that would undo the
    /// removal: the card together with the shortened deck.
    pub fn pop(self) -> (r: Push)
        requires
            self@.len() > 0,
        ensures
            r.card == self@.last(),
            r.on@ == self@.drop_last(),
    {
        let mut inner = self.inner;
        let card = inner.pop().unwrap();
        Push { card, on: Deck { inner } }
    }

    /// Append a card to the top of the deck.
    pub fn push(self, card: Card) -> (r: Self)
        ensures
            r@ == self@.push(card),
    {
        let mut inner = self.inner;
        inner.push(card);
        Deck { inner }
    }
}

impl State for Deck {
    /// The single act that separates this deck from `other`, as the `State`
    /// contract states it. The receiver is consumed and carried inside the
    /// returned act.
    fn diff(self, other: &Deck) -> (r: Act) {
        if self.same_cards(other) {
            Act::Nothing(Nothing { state: self })
        } else if other.inner.len() > self.inner.len() {
            Act::Pop(Pop { state: self })
        } else {
            proof {
                if other@.len() == 0 {
                    assert(self@ =~= other@);
                }
            }
            let card = other.inner[other.inner.len() - 1];
            Act::Push(Push { card, on: self })
        }
    }
}

} // verus!
