//! Randomness for weight initialization.
//!
//! The seeded generator wraps `rand`'s `StdRng`. For a fixed version of
//! `rand` (this crate pins one), the stream of `next_u64` values after
//! `seed_from_u64` is a deterministic function of the seed alone, the same
//! in every process and on every machine; [`stdrng_out`] names the value at
//! each position of that stream, so seeded initialization has an exact,
//! reproducible contract. Nothing is assumed of the unseeded source beyond
//! that it yields some value.

use vstd::prelude::*;
use rand::RngCore;
use rand::SeedableRng;
use rand::rngs::StdRng;

verus! {

#[verifier::external_type_specification]
#[verifier::external_body]
pub struct ExStdRng(StdRng);

/// The `index`-th value of the `next_u64` stream of a `StdRng` seeded with
/// `seed` through `seed_from_u64`.
pub uninterp spec fn stdrng_out(seed: u64, index: nat) -> u64;

/// Relies on `rand::rngs::StdRng::seed_from_u64`. The handle is opaque;
/// what its stream yields is stated on [`SeededRng::next`] alone.
#[verifier::external_body]
fn stdrng_from_seed(seed: u64) -> StdRng {
    StdRng::seed_from_u64(seed)
}

/// A deterministic pseudo-random stream: a seeded `StdRng` together with
/// the ghost position reached in its stream. The fields are private, so the
/// seed recorded at construction always matches the handle's real seed.
pub struct SeededRng {
    inner: StdRng,
    seed: Ghost<u64>,
    drawn: Ghost<nat>,
}

impl SeededRng {
    /// The seed this stream was created from.
    pub closed spec fn seed_spec(&self) -> u64 {
        self.seed@
    }

    /// How many values have been drawn so far.
    pub closed spec fn drawn_spec(&self) -> nat {
        self.drawn@
    }

    /// Creates the stream of the given seed, positioned at its start.
    pub fn new(seed: u64) -> (r: SeededRng)
        ensures
            r.seed_spec() == seed,
            r.drawn_spec() == 0,
    {
        SeededRng { inner: stdrng_from_seed(seed), seed: Ghost(seed), drawn: Ghost(0) }
    }

    /// Relies on `rand::rngs::StdRng::next_u64` (through `RngCore`): the
    /// stream of values after `seed_from_u64` is a deterministic function
    /// of the seed and of the position in the stream.
    #[verifier::external_body]
    pub(crate) fn next(&mut self) -> (r: u64)
        ensures
            r == stdrng_out(old(self).seed_spec(), old(self).drawn_spec()),
            final(self).seed_spec() == old(self).seed_spec(),
            final(self).drawn_spec() == old(self).drawn_spec() + 1,
    {
        self.inner.next_u64()
    }
}

/// Relies on `rand::random::<u64>()`: an unseeded draw from the thread's
/// generator. Nothing can be promised of the value.
#[verifier::external_body]
pub(crate) fn os_random() -> u64 {
    rand::random::<u64>()
}

} // verus!
