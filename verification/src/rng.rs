//! Deterministic xorshift64 pseudo-random generator.
//!
//! The generator owns a single 64-bit word of state. Each call to `next`
//! returns the state as it stood before the call and then mixes the state
//! with three fixed xor-shift substeps. The sequence of returned values is
//! therefore a pure function of the seed.

use vstd::prelude::*;

verus! {

/// One mixing step of the xorshift64 state: xor in a left shift by 13,
/// then a right shift by 7, then a left shift by 17, in this order.
pub open spec fn xorshift_step(x: u64) -> u64 {
    let a = x ^ (x << 13);
    let b = a ^ (a >> 7);
    b ^ (b << 17)
}

/// The generator state after `n` mixing steps starting from `seed`.
///
/// Because `next` returns the pre-mutation state, this is also the value
/// returned by the `n`-th call to `next` (counting from 0) on a generator
/// seeded with `seed`.
pub open spec fn state_after(seed: u64, n: nat) -> u64
    decreases n,
{
    if n == 0 {
        seed
    } else {
        xorshift_step(state_after(seed, (n - 1) as nat))
    }
}

/// A xorshift64 pseudo-random generator: a single 64-bit word, mutated in
/// place on every call to `next`. Single-owner use only.
pub struct Rng {
    pub x: u64,
}

impl Rng {
    /// Starts a generator seeded from the clock, so each run draws a
    /// different but thereafter fully deterministic sequence. Nothing is
    /// stated of the seed: it depends on the moment of the call.
    pub fn new() -> Rng {
        Rng { x: crate::clock::seed_from_clock() }
    }

    /// Starts a generator from a given seed.
    ///
    /// A zero seed degenerates to an all-zero sequence; see
    /// `lemma_zero_seed_stays_zero`.
    pub fn from_seed(seed: u64) -> (rng: Rng)
        ensures
            rng.x == seed,
    {
        Rng { x: seed }
    }

    /// Returns the current state and then mixes the state one step.
    pub fn next(&mut self) -> (out: u64)
        ensures
            out == old(self).x,
            final(self).x == xorshift_step(old(self).x),
    {
        let res = self.x;
        self.x = self.x ^ (self.x << 13);
        self.x = self.x ^ (self.x >> 7);
        self.x = self.x ^ (self.x << 17);
        res
    }
}

/// Seed determinism: two generators holding equal states pass through equal
/// states at every later step, so their sequences of returned values agree.
pub proof fn lemma_equal_seeds_equal_sequences(a: Rng, b: Rng, n: nat)
    requires
        a.x == b.x,
    ensures
        state_after(a.x, n) == state_after(b.x, n),
{
}

/// Zero-seed degeneracy: a generator seeded with zero stays at zero forever,
/// so every value it returns is zero.
pub proof fn lemma_zero_seed_stays_zero(n: nat)
    ensures
        state_after(0, n) == 0,
    decreases n,
{
    if n > 0 {
        lemma_zero_seed_stays_zero((n - 1) as nat);
        assert(xorshift_step(0) == 0) by (bit_vector);
    }
}

} // verus!
