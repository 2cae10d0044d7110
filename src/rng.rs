//! The seeded pseudo-random generator of a game session, carried as its plain
//! two-word state so that every draw is a function of that state.
use vstd::prelude::*;

verus! {

/// The state that `oorandom::Rand32::new` produces from a seed.
pub uninterp spec fn seeded_state(seed: u64) -> (u64, u64);

/// The value that `oorandom::Rand32::rand_range` draws from a generator in the
/// given state over `lo..hi`, together with the generator's state afterwards.
pub uninterp spec fn range_draw(state: (u64, u64), lo: u32, hi: u32) -> (u32, (u64, u64));

/// Relies on `oorandom::Rand32::new` (and `Rand32::state`): the initial state is
/// a function of the seed alone.
#[verifier::external_body]
pub(crate) fn seed_state(seed: u64) -> (r: (u64, u64))
    ensures
        r == seeded_state(seed),
{
    oorandom::Rand32::new(seed).state()
}

/// Relies on `oorandom::Rand32::rand_range` (through `Rand32::from_state` and
/// `Rand32::state`): for `lo < hi` it returns a value in `lo..hi`, and the value
/// and the next state depend on the state and the bounds alone.
#[verifier::external_body]
pub(crate) fn draw_range(state: (u64, u64), lo: u32, hi: u32) -> (r: (u32, (u64, u64)))
    requires
        lo < hi,
    ensures
        r == range_draw(state, lo, hi),
        lo <= r.0 < hi,
{
    let mut g = oorandom::Rand32::from_state(state);
    let v = g.rand_range(lo..hi);
    (v, g.state())
}

} // verus!
