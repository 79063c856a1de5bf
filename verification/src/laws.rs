//! Laws that the engine's contracts combine to: the push/pop inverse, the
//! no-op act's identity, and diff's self-consistency, each proved from the
//! contracts the operations themselves carry.
use vstd::prelude::*;

use crate::act::Act;
use crate::act::Nothing;
use crate::act::Push;
use crate::card::Card;
use crate::deck::Deck;
use crate::engine::State;

verus! {

/// The push/pop inverse law: pushing a card on a deck and then popping
/// restores the deck and yields that very card. `Deck::push` produces the
/// view `d.push(c)`; `Deck::pop` and a pop act's effect yield the last card
/// of their deck and the view shortened by it, which this law resolves back
/// to exactly `c` and `d`.
pub proof fn lemma_push_pop_inverse(d: Seq<Card>, c: Card)
    ensures
        d.push(c).len() == d.len() + 1,
        d.push(c).last() == c,
        d.push(c).drop_last() == d,
{
    assert(d.push(c).drop_last() =~= d);
}

/// The push/pop inverse law at the deck level: pushing a card and popping
/// again hands back that very card, on a deck holding the original cards.
pub fn push_pop_roundtrip(d: Deck, c: Card) -> (r: Push)
    ensures
        r.card == c,
        r.on@ == d@,
{
    proof {
        lemma_push_pop_inverse(d@, c);
    }
    d.push(c).pop()
}

/// Nothing is identity: consuming a no-op act yields a deck structurally
/// equal to the one the act held.
pub fn nothing_effect_identity(d: Deck) -> (r: Deck)
    ensures
        r@ == d@,
{
    Act::Nothing(Nothing { state: d }).effect().unwrap()
}

/// Diff self-consistency: a clone of any deck, diffed against the original,
/// yields the no-op act, carrying the cards unchanged.
pub fn clone_diff_is_nothing(d: &Deck) -> (r: Act)
    ensures
        r matches Act::Nothing(a) && a.state@ == d@,
{
    d.clone().diff(d)
}

} // verus!
