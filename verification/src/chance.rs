//! Chance: a generator of random numbers, a shuffle and a die. All are
//! calls into the `rand` crate, and their contracts are believed, not
//! proved.

use rand::rngs::StdRng;
use rand::seq::SliceRandom;
use rand::{Rng, SeedableRng};
use vstd::prelude::*;

verus! {

/// The standard generator of `rand`. Nothing is known of what is inside.
#[verifier::external_type_specification]
#[verifier::external_body]
pub struct ExStdRng(StdRng);

/// The copy of a generator, as `rand` derives it for `StdRng`. Nothing is
/// claimed of the copy.
pub assume_specification[ <StdRng as Clone>::clone ](rng: &StdRng) -> (copy: StdRng);

/// Calls `SeedableRng::seed_from_u64` of `rand` for a standard generator.
/// Nothing is claimed of the generator.
#[verifier::external_body]
pub(crate) fn seeded_generator(seed: u64) -> (rng: StdRng) {
    StdRng::seed_from_u64(seed)
}

/// Calls `SeedableRng::from_entropy` of `rand` for a standard generator.
/// Nothing is claimed of the generator. The call fails only where the
/// operating system has no entropy to give, which no argument decides.
#[verifier::external_body]
pub(crate) fn fresh_generator() -> (rng: StdRng) {
    StdRng::from_entropy()
}

/// Calls `SliceRandom::shuffle` of `rand` on the items, with the given
/// generator. The contract claims what the shuffle's loop of swaps shows:
/// the items are the same, each as often as before; their order is open.
#[verifier::external_body]
pub(crate) fn shuffle_in_place<T>(items: &mut Vec<T>, rng: &mut StdRng)
    ensures
        final(items)@.to_multiset() == old(items)@.to_multiset(),
{
    items.shuffle(rng);
}

/// Calls `Rng::gen_range` of `rand` on the inclusive range from `low` to
/// `high`, with the given generator. The contract claims that the number
/// lies in the range; `gen_range` panics on an empty range, which the
/// precondition leaves out.
#[verifier::external_body]
pub(crate) fn random_between(rng: &mut StdRng, low: u8, high: u8) -> (r: u8)
    requires
        low <= high,
    ensures
        low <= r <= high,
{
    rng.gen_range(low..=high)
}

} // verus!
