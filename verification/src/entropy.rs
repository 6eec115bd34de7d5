//! Entropy from the process's thread-local random generator.
//!
//! The level builder can run either from a fixed seed (fully deterministic,
//! see `prng`) or from real entropy. This module holds the library's only
//! calls into the `rand` crate; nothing is assumed of the values drawn
//! beyond the range the documentation promises.

use vstd::prelude::*;

verus! {

#[verifier::external_type_specification]
#[verifier::external_body]
pub struct ExThreadRng(rand::rngs::ThreadRng);

/// Relies on rand::thread_rng: returns a handle to the thread-local
/// generator. Nothing is promised of it.
#[verifier::external_body]
pub(crate) fn new_thread_rng() -> rand::rngs::ThreadRng {
    rand::thread_rng()
}

/// Relies on rand::Rng::gen_range over the range `0..n`: the sample lies in
/// that half-open range, and the call panics only when the range is empty,
/// which the precondition rules out. Which value comes back is chance, so
/// nothing more is promised.
#[verifier::external_body]
pub(crate) fn draw_below(rng: &mut rand::rngs::ThreadRng, n: u64) -> (r: u64)
    requires
        1 <= n,
    ensures
        r < n,
{
    rand::Rng::gen_range(rng, 0..n)
}

} // verus!
