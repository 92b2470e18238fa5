//! Deterministic linear-congruential generator compatible with the 16-bit
//! legacy C runtime `rand()` that the platform's server uses for session-key
//! derivation. The recurrence and output range must match it bit for bit.

use vstd::prelude::*;

verus! {

/// The largest value `next` can return (the generator has a 15-bit output).
pub const RAND_MAX: u32 = 32767;

/// Multiplier of the linear-congruential recurrence.
pub const MULTIPLIER: u32 = 214013;

/// Increment of the linear-congruential recurrence.
pub const INCREMENT: u32 = 2531011;

/// One step of the recurrence: `state * 214013 + 2531011 (mod 2^32)`.
pub open spec fn lcg_step(state: u32) -> u32 {
    state.wrapping_mul(MULTIPLIER).wrapping_add(INCREMENT)
}

/// The value handed out for a given internal state: bits 16..31, masked to
/// 15 bits.
pub open spec fn lcg_output(state: u32) -> u32 {
    (state >> 16) & RAND_MAX
}

/// The state after `n` steps of the recurrence from `state`.
pub open spec fn lcg_iterate(state: u32, n: nat) -> u32
    decreases n,
{
    if n == 0 {
        state
    } else {
        lcg_step(lcg_iterate(state, (n - 1) as nat))
    }
}

/// The deterministic pseudo-random generator. Its whole behaviour is a
/// function of the seed: two generators with the same seed produce the same
/// sequence.
pub struct Random {
    seed: u32,
}

impl Random {
    /// The current internal state.
    pub closed spec fn state(&self) -> u32 {
        self.seed
    }

    /// Creates a generator whose state is exactly `seed`.
    pub fn new(seed: u32) -> (r: Random)
        ensures
            r.state() == seed,
    {
        Random { seed }
    }

    /// Advances the state by one step of the recurrence and returns the
    /// 15-bit output for the new state.
    pub fn next(&mut self) -> (r: u32)
        ensures
            final(self).state() == lcg_step(old(self).state()),
            r == lcg_output(final(self).state()),
            r <= RAND_MAX,
    {
        self.seed = self.seed.wrapping_mul(MULTIPLIER).wrapping_add(INCREMENT);
        let r = (self.seed >> 16) & RAND_MAX;
        proof {
            let s = self.seed;
            assert(((s >> 16) & RAND_MAX) <= RAND_MAX) by (bit_vector);
        }
        r
    }

    /// Replaces the state directly.
    pub fn set_seed(&mut self, seed: u32)
        ensures
            final(self).state() == seed,
    {
        self.seed = seed;
    }
}

/// Two generators started from equal seeds stay in lockstep: after any number
/// of steps their states, and hence their outputs, are identical.
pub proof fn lemma_equal_seeds_equal_sequence(seed1: u32, seed2: u32, n: nat)
    requires
        seed1 == seed2,
    ensures
        lcg_iterate(seed1, n) == lcg_iterate(seed2, n),
        lcg_output(lcg_iterate(seed1, n)) == lcg_output(lcg_iterate(seed2, n)),
{
}

} // verus!
