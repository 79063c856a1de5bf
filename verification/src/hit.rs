//! The four-way deal: one move that deals the top four cards of a shared
//! stack to four target decks, one card each, in strict order, and carries
//! the depleted stack forward as a trailing no-op.
use vstd::prelude::*;

use crate::act::Act;
use crate::act::Nothing;
use crate::act::Push;
use crate::deck::Deck;
use crate::engine::Move;
use crate::error::EngineError;

verus! {

/// One dealing operation: the move owns the shared stack and the four
/// target decks until its acts are produced.
#[derive(Debug)]
pub struct Hit {
    pub deck1: Deck,
    pub deck2: Deck,
    pub deck3: Deck,
    pub deck4: Deck,
    pub stack: Deck,
}

impl Hit {
    /// Produce the move's acts: exactly five, in a fixed, significant order.
    /// The first target deck receives the card that was physically on top of
    /// the stack, the second the next, and so on; the fifth act carries the
    /// stack shortened by those four cards, order preserved among the rest.
    ///
    /// The check is up front and all-or-nothing: a stack of fewer than four
    /// cards fails before any push is produced, and the move comes back
    /// untouched beside the error.
    pub fn into_acts(self) -> (r: Result<Vec<Act>, (EngineError, Hit)>)
        ensures
            self.stack@.len() >= 4 <==> r is Ok,
            (r matches Ok(acts) ==> {
                let s = self.stack@;
                &&& acts@.len() == 5
                &&& acts@[0] matches Act::Push(a) && a.card == s[s.len() - 1] && a.on@
                    == self.deck1@
                &&& acts@[1] matches Act::Push(a) && a.card == s[s.len() - 2] && a.on@
                    == self.deck2@
                &&& acts@[2] matches Act::Push(a) && a.card == s[s.len() - 3] && a.on@
                    == self.deck3@
                &&& acts@[3] matches Act::Push(a) && a.card == s[s.len() - 4] && a.on@
                    == self.deck4@
                &&& acts@[4] matches Act::Nothing(a) && a.state@ == s.take(s.len() - 4)
            }),
            (r matches Err(pair) ==> pair.0 == EngineError::InsufficientResources && pair.1
                == self),
    {
        if self.stack.len() < 4 {
            return Err((EngineError::InsufficientResources, self));
        }
        let ghost s = self.stack@;
        let Hit { deck1, deck2, deck3, deck4, stack } = self;
        let Push { card: c1, on: stack } = stack.pop();
        let Push { card: c2, on: stack } = stack.pop();
        let Push { card: c3, on: stack } = stack.pop();
        let Push { card: c4, on: stack } = stack.pop();
        proof {
            assert(stack@ =~= s.take(s.len() - 4));
        }
        let mut acts: Vec<Act> = Vec::with_capacity(5);
        acts.push(Act::Push(Push { card: c1, on: deck1 }));
        acts.push(Act::Push(Push { card: c2, on: deck2 }));
        acts.push(Act::Push(Push { card: c3, on: deck3 }));
        acts.push(Act::Push(Push { card: c4, on: deck4 }));
        acts.push(Act::Nothing(Nothing { state: stack }));
        Ok(acts)
    }
}

impl Move for Hit {
    /// The deal's acts, produced whole, or the untouched move beside the
    /// error when the stack cannot cover four cards; exactly as `into_acts`
    /// states it.
    fn acts(self) -> (r: Result<Vec<Act>, (EngineError, Hit)>)
        ensures
            self.stack@.len() >= 4 <==> r is Ok,
            (r matches Ok(acts) ==> {
                let s = self.stack@;
                &&& acts@.len() == 5
                &&& acts@[0] matches Act::Push(a) && a.card == s[s.len() - 1] && a.on@
                    == self.deck1@
                &&& acts@[1] matches Act::Push(a) && a.card == s[s.len() - 2] && a.on@
                    == self.deck2@
                &&& acts@[2] matches Act::Push(a) && a.card == s[s.len() - 3] && a.on@
                    == self.deck3@
                &&& acts@[3] matches Act::Push(a) && a.card == s[s.len() - 4] && a.on@
                    == self.deck4@
                &&& acts@[4] matches Act::Nothing(a) && a.state@ == s.take(s.len() - 4)
            }),
            (r matches Err(pair) ==> pair.0 == EngineError::InsufficientResources),
    {
        self.into_acts()
    }
}

} // verus!
