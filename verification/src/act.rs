//! Acts: one-shot, ownership-consuming transitions over a deck.
//!
//! The set of transitions is closed, so an act is a tagged union over the
//! three variants rather than an open interface. An act owns the deck it
//! operates on; `effect` consumes the act exactly once and produces the
//! resulting deck.
use vstd::prelude::*;

use crate::card::Card;
use crate::deck::Deck;
use crate::error::EngineError;

verus! {

/// Removes and discards the top card of the owned deck.
#[derive(Debug)]
pub struct Pop {
    pub state: Deck,
}

/// Appends the held card to the top of the owned deck.
#[derive(Debug)]
pub struct Push {
    pub card: Card,
    pub on: Deck,
}

/// The identity transition: yields the owned deck unchanged.
#[derive(Debug)]
pub struct Nothing {
    pub state: Deck,
}

/// One legal transition over a deck, ready to be consumed.
#[derive(Debug)]
pub enum Act {
    Pop(Pop),
    Push(Push),
    Nothing(Nothing),
}

impl Act {
    /// Consume the act and produce the deck it leads to: pop shortens its
    /// deck by the top card, push lengthens its deck by the held card, and
    /// nothing yields its deck unchanged. The one failure is a pop of an
    /// empty deck, surfaced as an explicit error.
    pub fn effect(self) -> (r: Result<Deck, EngineError>)
        ensures
            (match self {
                Act::Pop(a) => {
                    &&& a.state@.len() > 0 ==> (r matches Ok(d) && d@ == a.state@.drop_last())
                    &&& a.state@.len() == 0 ==> (r matches Err(e) && e
                        == EngineError::EmptyResource)
                },
                Act::Push(a) => r matches Ok(d) && d@ == a.on@.push(a.card),
                Act::Nothing(a) => r matches Ok(d) && d@ == a.state@,
            }),
    {
        match self {
            Act::Pop(a) => {
                if a.state.len() == 0 {
                    Err(EngineError::EmptyResource)
                } else {
                    Ok(a.state.pop().on)
                }
            },
            Act::Push(a) => Ok(a.on.push(a.card)),
            Act::Nothing(a) => Ok(a.state),
        }
    }
}

} // verus!
