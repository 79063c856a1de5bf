//! The shuffle provider: an outside collaborator that permutes a vector of
//! cards in place. The engine asks of it only that it rearranges what it is
//! given; which permutation comes out is the provider's business.
use vstd::prelude::*;

use rand::rngs::mock::StepRng;
use shuffle::irs::Irs;
use shuffle::shuffler::Shuffler;

use crate::card::Card;
use crate::error::EngineError;

verus! {

#[verifier::external_type_specification]
#[verifier::external_body]
pub struct ExStepRng(StepRng);

#[verifier::external_type_specification]
#[verifier::external_body]
#[verifier::reject_recursive_types(T)]
pub struct ExIrs<T>(Irs<T>);

pub assume_specification [ StepRng::new ](initial: u64, increment: u64) -> StepRng;

/// Relies on shuffle's Irs::default: a fresh inverse-riffle shuffler with no
/// cached context. Nothing is claimed of the value; it only carries scratch
/// state between shuffles.
#[verifier::external_body]
pub(crate) fn new_irs() -> Irs<Card> {
    Irs::default()
}

/// Relies on shuffle's Irs::shuffle, an inverse riffle shuffle: every round
/// moves each entry of `data` to a fresh position, so whatever bits the
/// randomness source yields, the vector afterwards holds exactly the cards
/// it held before, rearranged. The call fails only when the source never
/// labels all entries distinctly; the entries are still only rearranged in
/// that case.
///
/// Nothing is claimed of the order that comes out, nor even that two calls
/// on one input agree: the provider walks its bit buffer with an index that
/// can run past what the source filled, so its choices vary between calls
/// even for a fixed source.
#[verifier::external_body]
pub(crate) fn shuffle_cards(
    irs: &mut Irs<Card>,
    data: &mut Vec<Card>,
    rng: &mut StepRng,
) -> (r: Result<(), EngineError>)
    ensures
        final(data)@.to_multiset() == old(data)@.to_multiset(),
        final(data)@.len() == old(data)@.len(),
        r matches Err(e) ==> e == EngineError::ShuffleFailure,
{
    match irs.shuffle(data, rng) {
        Ok(()) => Ok(()),
        Err(_) => Err(EngineError::ShuffleFailure),
    }
}

} // verus!
