//! The engine's error taxonomy.
use vstd::prelude::*;

verus! {

/// Why an operation of the engine could not run to completion.
#[derive(Debug, Clone, Copy, PartialEq, Eq, Structural)]
pub enum EngineError {
    /// An element was asked of an empty ordered container, such as popping
    /// an empty deck.
    EmptyResource,
    /// A move needed more elements than its source holds, such as a four-way
    /// deal from a stack of fewer than four cards.
    InsufficientResources,
    /// A move failed validation against the current situation; the driving
    /// loop must reject the turn without applying any of the move's acts.
    InvalidMove,
    /// The injected permutation provider failed; reported when a deck is
    /// constructed, and such a deck never comes to exist.
    ShuffleFailure,
}

} // verus!
