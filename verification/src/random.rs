//! The random source behind the shuffle. Nothing in this file is proved: each
//! item states what the library takes on trust from the `rand` crate.

use crate::card::Card;
use rand::rngs::ThreadRng;
use rand::seq::SliceRandom;
use vstd::prelude::*;

verus! {

/// `rand::rngs::ThreadRng`, the handle to the generator of the current
/// thread. Its state is hidden here: a value of it is only carried from
/// `rand::thread_rng` to the shuffle.
#[verifier::external_type_specification]
#[verifier::external_body]
pub struct ExThreadRng(ThreadRng);

/// `rand::thread_rng` hands out the generator of the current thread, which
/// is seeded from the operating system on first use; where the system can
/// give no seed, that first call ends the thread. Nothing is claimed about the
/// value.
pub assume_specification[ rand::thread_rng ]() -> (rng: ThreadRng)
;

/// `SliceRandom::shuffle` on the slice of a vector of cards. It walks the
/// slice from its end and swaps each element with one at a random index not
/// above it, so it changes where the cards lie and nothing else: afterwards
/// every card is there as often as before. Which order comes out is left open.
#[verifier::external_body]
pub(crate) fn shuffle_cards(cards: &mut Vec<Card>, rng: &mut ThreadRng)
    ensures
        final(cards)@.to_multiset() == old(cards)@.to_multiset(),
{
    cards.shuffle(rng);
}

} // verus!
