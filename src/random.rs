//! The pseudo-random source: fastrand's generator, held as its single word of
//! state so that every draw is a function of that state.

use vstd::prelude::*;

verus! {

/// What fastrand's generator yields from the state `state` when asked for a
/// value in `low..=high`: the advanced state and the value.
pub uninterp spec fn seeded_draw(state: u64, low: u64, high: u64) -> (u64, u64);

/// Relies on fastrand::Rng::with_seed, Rng::u64 and Rng::get_seed: the generator
/// is the single word `state`, and one draw in `low..=high` advances it and
/// yields a value in that range. The outcome depends on the arguments alone.
#[verifier::external_body]
pub(crate) fn draw(state: u64, low: u64, high: u64) -> (r: (u64, u64))
    requires
        low <= high,
    ensures
        r == seeded_draw(state, low, high),
        low <= r.1 <= high,
{
    let mut rng = fastrand::Rng::with_seed(state);
    let value = rng.u64(low..=high);
    (rng.get_seed(), value)
}

/// Relies on fastrand::u64 over the full range: a seed from the thread-local
/// generator, which is itself seeded from system entropy.
#[verifier::external_body]
pub(crate) fn entropy_seed() -> (r: u64) {
    fastrand::u64(..)
}


} // verus!
