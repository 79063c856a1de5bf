//! Playing cards: a suit and a rank, an immutable, copyable value type.
use vstd::prelude::*;

verus! {

/// One of the four french suits, plus the joker. The joker is never produced
/// by the shuffled constructor; it is reachable only by building a card
/// directly.
#[derive(Debug, Clone, Copy, PartialEq, Eq, Structural)]
pub enum Suit {
    Spades,
    Hearts,
    Clubs,
    Diamonds,
    Joker,
}

/// A playing card. Two cards with equal fields are interchangeable: a card
/// has no identity beyond its suit and its rank.
#[derive(Debug, Clone, Copy, PartialEq, Eq, Structural)]
pub struct Card {
    pub suit: Suit,
    pub value: u8,
}

/// A card whose rank lies in the range a deck of cards offers.
pub open spec fn card_wf(c: Card) -> bool {
    1 <= c.value <= 13
}

/// The card that a full pack assigns to index `i`: thirteen ranks per suit,
/// spades first, then hearts, clubs and diamonds. Indices past the pack
/// would fall to the joker; the pack stops at 51 and never reaches it.
pub open spec fn card_for(i: u8) -> Card {
    Card {
        suit: if i / 13 == 0 {
            Suit::Spades
        } else if i / 13 == 1 {
            Suit::Hearts
        } else if i / 13 == 2 {
            Suit::Clubs
        } else if i / 13 == 3 {
            Suit::Diamonds
        } else {
            Suit::Joker
        },
        value: (i % 13 + 1) as u8,
    }
}

/// The full pack of 52 cards, in index order: no jokers.
pub open spec fn standard_deck() -> Seq<Card> {
    Seq::new(52, |i: int| card_for(i as u8))
}

/// Build the card that a full pack assigns to index `i`.
pub fn card_of(i: u8) -> (c: Card)
    ensures
        c == card_for(i),
{
    let suit = match i / 13 {
        0 => Suit::Spades,
        1 => Suit::Hearts,
        2 => Suit::Clubs,
        3 => Suit::Diamonds,
        _ => Suit::Joker,
    };
    Card { suit, value: i % 13 + 1 }
}

impl Default for Card {
    /// The ace of clubs, as a neutral placeholder value.
    fn default() -> (r: Self)
        ensures
            r == (Card { suit: Suit::Clubs, value: 1 }),
            card_wf(r),
    {
        Card { suit: Suit::Clubs, value: 1 }
    }
}

} // verus!
