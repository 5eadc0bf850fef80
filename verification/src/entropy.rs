//! Access to the process random source of the `rand` crate.
//!
//! The generator handle is opaque here; the one fact the rest of the crate
//! relies on is the range of each drawn sample, stated on [`draw_below`].

use vstd::prelude::*;

verus! {

/// The thread-local random generator of the `rand` crate, carried through as
/// an opaque value.
#[verifier::external_type_specification]
#[verifier::external_body]
pub struct ExThreadRng(rand::rngs::ThreadRng);

/// Relies on rand::rng: a handle to the thread-local random generator.
/// Nothing is assumed of the values it will produce.
#[verifier::external_body]
pub(crate) fn fresh_rng() -> rand::rngs::ThreadRng {
    rand::rng()
}

/// Relies on rand::RngExt::random_range over `0..bound`: a uniformly
/// distributed sample strictly below `bound`. The call panics only on an
/// empty range, which `bound > 0` rules out. Two calls on equal arguments
/// may differ, so no more than the range is stated.
#[verifier::external_body]
pub(crate) fn draw_below(rng: &mut rand::rngs::ThreadRng, bound: u32) -> (r: u32)
    requires
        bound > 0,
    ensures
        r < bound,
{
    rand::RngExt::random_range(rng, 0..bound)
}

} // verus!
