//! Deterministic pseudo-random increments for the stochastic sampler.
//!
//! A seeded run must be bit-identical across invocations, so the generator
//! is defined here, entirely in verified code, with an exact spec-level
//! twin for every draw: the whole stream is a function of the seed.
//! An unseeded run takes a fresh seed from the process entropy source.

use vstd::prelude::*;
use vstd::wrapping::u64_specs;
use crate::fixed::SCALE;

verus! {

/// One state advance of the 64-bit mixer generator (a Weyl sequence step).
pub open spec fn spec_next_state(s: u64) -> u64 {
    u64_specs::wrapping_add(s, 0x9E3779B97F4A7C15u64)
}

/// The output mix applied to an advanced state.
pub open spec fn spec_mix(s: u64) -> u64 {
    let z0 = spec_next_state(s);
    let z1 = u64_specs::wrapping_mul(z0 ^ (z0 >> 30u64), 0xBF58476D1CE4E5B9u64);
    let z2 = u64_specs::wrapping_mul(z1 ^ (z1 >> 27u64), 0x94D049BB133111EBu64);
    z2 ^ (z2 >> 31u64)
}

/// The state after `k` advances.
pub open spec fn spec_state_after(s: u64, k: nat) -> u64
    decreases k,
{
    if k == 0 {
        s
    } else {
        spec_next_state(spec_state_after(s, (k - 1) as nat))
    }
}

/// The uniform draw in `[0, SCALE]` taken from state `s`.
pub open spec fn spec_unit_draw(s: u64) -> int {
    (spec_mix(s) % (SCALE + 1) as u64) as int
}

/// Sum of the first `k` uniform draws from state `s`.
pub open spec fn spec_uniform_sum(s: u64, k: nat) -> int
    decreases k,
{
    if k == 0 {
        0
    } else {
        spec_uniform_sum(s, (k - 1) as nat) + spec_unit_draw(
            spec_state_after(s, (k - 1) as nat),
        )
    }
}

/// Number of uniform draws summed per approximately-normal increment.
pub const GAUSS_DRAWS: u64 = 12;

/// The approximately standard-normal draw taken from state `s`:
/// twelve uniforms on `[0, 1]` summed, recentered at zero
/// (so it has mean zero and unit variance), in fixed point.
pub open spec fn spec_gauss(s: u64) -> int {
    spec_uniform_sum(s, GAUSS_DRAWS as nat) - 6 * SCALE
}

/// Advancing `a + b` times is advancing `a` times, then `b` times.
pub proof fn lemma_state_after_add(s: u64, a: nat, b: nat)
    ensures
        spec_state_after(s, a + b) == spec_state_after(spec_state_after(s, a), b),
    decreases b,
{
    if b > 0 {
        lemma_state_after_add(s, a, (b - 1) as nat);
    }
}

/// Every uniform draw lies in `[0, SCALE]`, so the sum of `k` lies in `[0, k * SCALE]`.
pub proof fn lemma_uniform_sum_bounds(s: u64, k: nat)
    ensures
        0 <= spec_uniform_sum(s, k) <= k * SCALE,
    decreases k,
{
    if k > 0 {
        lemma_uniform_sum_bounds(s, (k - 1) as nat);
        assert((k - 1) * SCALE + SCALE == k * SCALE) by (nonlinear_arith);
    }
}

/// Relies on rand::random: draws one value from the process entropy source;
/// nothing is promised of the value drawn.
pub assume_specification<T>[ rand::random::<T> ]() -> (r: T)
    where
        rand::distributions::Standard: rand::distributions::Distribution<T>,
;

/// A fresh seed for an unseeded run. Two calls may differ: nothing is
/// promised of the value, and everything downstream is verified for
/// every possible seed.
pub fn fresh_seed() -> u64 {
    rand::random::<u64>()
}

/// The deterministic generator: the entire stream is a function of `state`.
pub struct Rng {
    pub state: u64,
}

impl Rng {
    pub fn new(seed: u64) -> (r: Rng)
        ensures
            r.state == seed,
    {
        Rng { state: seed }
    }

    /// Advance once and emit the mixed output.
    pub fn next_u64(&mut self) -> (r: u64)
        ensures
            final(self).state == spec_next_state(old(self).state),
            r == spec_mix(old(self).state),
    {
        let z0: u64 = self.state.wrapping_add(0x9E3779B97F4A7C15u64);
        self.state = z0;
        let z1: u64 = (z0 ^ (z0 >> 30u64)).wrapping_mul(0xBF58476D1CE4E5B9u64);
        let z2: u64 = (z1 ^ (z1 >> 27u64)).wrapping_mul(0x94D049BB133111EBu64);
        z2 ^ (z2 >> 31u64)
    }

    /// A uniform fixed-point draw in `[0, SCALE]`, i.e. on `[0.0, 1.0]`.
    pub fn unit_draw(&mut self) -> (r: i64)
        ensures
            final(self).state == spec_next_state(old(self).state),
            r as int == spec_unit_draw(old(self).state),
            0 <= r <= SCALE,
    {
        let x: u64 = self.next_u64();
        (x % (SCALE + 1) as u64) as i64
    }

    /// An approximately standard-normal fixed-point draw:
    /// the sum of twelve uniforms on `[0, 1]`, recentered at zero.
    pub fn gauss(&mut self) -> (r: i64)
        ensures
            final(self).state == spec_state_after(old(self).state, GAUSS_DRAWS as nat),
            r as int == spec_gauss(old(self).state),
            -6 * SCALE <= r <= 6 * SCALE,
    {
        let ghost s0: u64 = self.state;
        let mut sum: i64 = 0;
        let mut k: u64 = 0;
        while k < GAUSS_DRAWS
            invariant
                k <= GAUSS_DRAWS,
                self.state == spec_state_after(s0, k as nat),
                sum as int == spec_uniform_sum(s0, k as nat),
                0 <= sum <= k * SCALE,
            decreases GAUSS_DRAWS - k,
        {
            let u: i64 = self.unit_draw();
            proof {
                lemma_state_after_add(s0, k as nat, 1);
            }
            sum = sum + u;
            k = k + 1;
        }
        sum - 6 * SCALE
    }
}

} // verus!
