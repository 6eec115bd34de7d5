//! Deterministic pseudo-random draws for reproducible level builds.
//!
//! A linear congruential generator over `u64` with Knuth's MMIX constants.
//! Keeping the generator inside the library makes a level build a pure
//! function of its seed, which is what lets the builder promise that two
//! builds from the same seed are identical.

use vstd::prelude::*;

use crate::arith::lemma_abs_mul_le;

verus! {

/// Multiplier of the congruence.
pub const LCG_MUL: u64 = 6364136223846793005;

/// Increment of the congruence.
pub const LCG_INC: u64 = 1442695040888963407;

/// The generator state that follows `s`.
pub open spec fn lcg_next(s: u64) -> u64 {
    ((s * LCG_MUL + LCG_INC) % 0x1_0000_0000_0000_0000) as u64
}

/// The value a draw below `n` yields from state `s`: the state's upper
/// bits, reduced modulo `n`.
pub open spec fn lcg_draw(s: u64, n: u64) -> u64 {
    ((s / 0x1_0000_0000) % n) as u64
}

/// A linear congruential generator.
#[derive(Clone, Copy, Debug, PartialEq, Eq, Structural)]
pub struct Lcg {
    pub state: u64,
}

impl Lcg {
    /// A generator starting from the given seed.
    pub fn new(seed: u64) -> (g: Lcg)
        ensures
            g.state == seed,
    {
        Lcg { state: seed }
    }

    /// Advance the state by one congruence step.
    pub fn step(&mut self)
        ensures
            final(self).state == lcg_next(old(self).state),
    {
        proof {
            lemma_abs_mul_le(self.state as int, LCG_MUL as int, u64::MAX as int, LCG_MUL as int);
        }
        let wide: u128 = self.state as u128 * (LCG_MUL as u128) + (LCG_INC as u128);
        let next: u128 = wide % 0x1_0000_0000_0000_0000u128;
        self.state = next as u64;
    }

    /// Draw a value below `n` from the current state, then advance.
    pub fn draw(&mut self, n: u64) -> (r: u64)
        requires
            1 <= n,
        ensures
            r == lcg_draw(old(self).state, n),
            r < n,
            final(self).state == lcg_next(old(self).state),
    {
        let r = (self.state / 0x1_0000_0000u64) % n;
        self.step();
        r
    }
}

} // verus!
