//! A turn-based game engine built around a State/Act duality: a state is an
//! immutable snapshot of game data, an act is a one-shot, ownership-consuming
//! transition between states, and a move is a finite ordered sequence of acts.
//! The one worked instance is a stack of playing cards with push, pop and
//! no-op transitions, and a four-way deal.
mod act;
mod card;
mod deck;
mod engine;
mod error;
mod hit;
mod laws;
mod shuffling;

pub use act::Act;
pub use act::Nothing;
pub use act::Pop;
pub use act::Push;
pub use card::card_for;
pub use card::card_of;
pub use card::card_wf;
pub use card::standard_deck;
pub use card::Card;
pub use card::Suit;
pub use deck::Deck;
pub use engine::Game;
pub use engine::Move;
pub use engine::Player;
pub use engine::State;
pub use engine::Status;
pub use error::EngineError;
pub use hit::Hit;
pub use laws::clone_diff_is_nothing;
pub use laws::lemma_push_pop_inverse;
pub use laws::nothing_effect_identity;
pub use laws::push_pop_roundtrip;
