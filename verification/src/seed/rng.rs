//! The seeded linear congruential generator behind bulk data.

use vstd::prelude::*;

verus! {

/// The multiplier of the generator.
pub const LCG_MULTIPLIER: u64 = 6_364_136_223_846_793_005;

/// The state that follows `s`: `s * 6364136223846793005 + 1` modulo 2^64.
pub open spec fn lcg_next(s: u64) -> u64 {
    let p = (s as nat * 6_364_136_223_846_793_005nat) % 0x1_0000_0000_0000_0000nat;
    ((p + 1) % 0x1_0000_0000_0000_0000nat) as u64
}

/// A seeded generator whose output is the sequence of its states.
pub struct SeededRng {
    state: u64,
}

impl View for SeededRng {
    type V = u64;

    /// The current state.
    closed spec fn view(&self) -> u64 {
        self.state
    }
}

impl SeededRng {
    /// A generator whose state is the seed.
    pub fn new(seed: u64) -> (r: Self)
        ensures
            r@ == seed,
    {
        SeededRng { state: seed }
    }

    /// Advances the state and returns the new state.
    pub fn next_u64(&mut self) -> (r: u64)
        ensures
            r == lcg_next(old(self)@),
            final(self)@ == r,
    {
        self.state = self.state.wrapping_mul(LCG_MULTIPLIER).wrapping_add(1);
        self.state
    }

    /// Advances the state and returns it reduced modulo `upper_exclusive`.
    pub fn next_u32(&mut self, upper_exclusive: u32) -> (r: u32)
        requires
            upper_exclusive > 0,
        ensures
            final(self)@ == lcg_next(old(self)@),
            r == lcg_next(old(self)@) % (upper_exclusive as u64),
            r < upper_exclusive,
    {
        let v = self.next_u64();
        (v % (upper_exclusive as u64)) as u32
    }

    /// Advances the state and returns it, as a `usize`, reduced modulo
    /// `upper_exclusive`.
    pub fn next_usize(&mut self, upper_exclusive: usize) -> (r: usize)
        requires
            upper_exclusive > 0,
        ensures
            final(self)@ == lcg_next(old(self)@),
            r == (lcg_next(old(self)@) as usize) % upper_exclusive,
            r < upper_exclusive,
    {
        let v = self.next_u64();
        (v as usize) % upper_exclusive
    }
}

} // verus!
