//! The engine's interfaces: states, moves, and the orchestration surface
//! (situation, player, game) that a driving loop implements around the
//! verified core.
use vstd::prelude::*;

use crate::act::Act;
use crate::card::Card;
use crate::error::EngineError;

verus! {

/// A state: an immutable snapshot of game data, viewed as the stack of
/// cards it holds. `diff` computes the single act that separates this
/// snapshot from `other`, consuming the receiver, which the returned act
/// then owns.
pub trait State: Sized + View<V = Seq<Card>> {
    /// The act that separates this snapshot from `other`: nothing when the
    /// two hold the same cards; otherwise a pop when `other` is longer, and
    /// a push of `other`'s top card when it is not. The input on which that
    /// choice would need a top card of an empty `other` is left out.
    fn diff(self, other: &Self) -> (r: Act)
        requires
            other@.len() == 0 ==> self@.len() == 0,
        ensures
            self@ == other@ ==> (r matches Act::Nothing(a) && a.state@ == self@),
            self@ != other@ && other@.len() > self@.len() ==> (r matches Act::Pop(a)
                && a.state@ == self@),
            self@ != other@ && other@.len() <= self@.len() ==> (r matches Act::Push(a)
                && a.card == other@.last() && a.on@ == self@),
    ;
}

/// A move: one player's whole turn, a finite, ordered sequence of acts
/// produced once. Producing the acts either succeeds whole or fails before
/// anything is consumed, handing the move back untouched beside the error.
pub trait Move: Sized {
    /// The move's acts, in the order they must be applied.
    fn acts(self) -> (r: Result<Vec<Act>, (EngineError, Self)>)
        ensures
            r matches Err(pair) ==> pair.1 == self,
    ;
}

/// The whole game-in-progress as seen at one instant: the snapshots taken
/// so far plus turn, score and admission control. `validate` is the sole
/// gate before a move's acts may be applied: a conforming engine never
/// applies acts from a move it did not validate.
pub trait Status: Sized {
    /// The snapshots recorded so far, oldest first.
    fn snapshots(&self) -> Vec<crate::deck::Deck>;

    /// The index, into the game's player list, of the player whose turn it
    /// is.
    fn turn(&self) -> usize;

    /// A displayable score for the player with the given index; for audit,
    /// not for gameplay logic.
    fn score(&self, player: usize) -> String;

    /// Whether the proposed sequence of acts is a legal turn here.
    fn validate(&self, acts: &Vec<Act>) -> bool;
}

/// A player: a name and a decision function. How the player thinks is the
/// implementor's business; the engine only asks that a whole turn comes
/// back.
pub trait Player: Sized {
    /// The situation type the player reads.
    type S: Status;

    /// The player's name.
    fn name(&self) -> String;

    /// Decide a whole turn from the given situation.
    fn play(&self, status: &Self::S) -> Vec<Act>;
}

/// A turn-based game: a growing sequence of situations, of which the last
/// is live, plus the set of players.
pub trait Game: Sized {
    /// The situation type the game sequences.
    type S: Status;

    /// The current situation.
    fn status(&self) -> Self::S;

    /// The players' names, in turn order.
    fn player_names(&self) -> Vec<String>;
}

} // verus!
