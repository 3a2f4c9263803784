//! Deterministic pseudo-random numbers for gameplay variety.
//!
//! A 32-bit linear congruential generator: each draw replaces the state `s`
//! by `s * 1664525 + 1013904223` modulo 2^32 and returns the new state.

use vstd::prelude::*;

verus! {

/// Multiplier of the generator.
pub const LCG_MULTIPLIER: u32 = 1664525;

/// Increment of the generator.
pub const LCG_INCREMENT: u32 = 1013904223;

/// The state that follows `state`.
pub open spec fn lcg_next(state: u32) -> u32 {
    ((state * LCG_MULTIPLIER + LCG_INCREMENT) % 0x1_0000_0000) as u32
}

/// The state a generator seeded from the timestamp `now_ms` starts in: one
/// step after the low 32 bits of the timestamp.
pub open spec fn seed_from_timestamp(now_ms: u64) -> u32 {
    lcg_next((now_ms % 0x1_0000_0000) as u32)
}

/// The generator.
#[derive(Clone, Copy, Debug)]
pub struct Lcg {
    state: u32,
}

impl View for Lcg {
    type V = u32;

    closed spec fn view(&self) -> u32 {
        self.state
    }
}

/// Computes the state that follows `state`.
fn step(state: u32) -> (next: u32)
    ensures
        next == lcg_next(state),
{
    let product: u32 = state.wrapping_mul(LCG_MULTIPLIER);
    proof {
        let exact = state * LCG_MULTIPLIER;
        assert(product == exact % 0x1_0000_0000);
        assert((exact + LCG_INCREMENT) % 0x1_0000_0000 == ((exact % 0x1_0000_0000)
            + LCG_INCREMENT) % 0x1_0000_0000) by (nonlinear_arith)
            requires
                exact >= 0,
        ;
    }
    product.wrapping_add(LCG_INCREMENT)
}

impl Lcg {
    /// A generator in the state `seed`, for reproducible draws.
    pub fn new(seed: u32) -> (rng: Self)
        ensures
            rng@ == seed,
    {
        Lcg { state: seed }
    }

    /// A generator seeded from a timestamp.
    pub fn from_timestamp(now_ms: u64) -> (rng: Self)
        ensures
            rng@ == seed_from_timestamp(now_ms),
    {
        Lcg { state: step((now_ms % 0x1_0000_0000) as u32) }
    }

    /// Advances the generator and returns its new state.
    pub fn next_u32(&mut self) -> (value: u32)
        ensures
            value == lcg_next(old(self)@),
            final(self)@ == value,
    {
        self.state = step(self.state);
        self.state
    }

    /// The current state.
    pub fn state(&self) -> (state: u32)
        ensures
            state == self@,
    {
        self.state
    }
}

} // verus!
