//! Random sampling source.
//!
//! The tracer draws uniform values for its stochastic interaction choice,
//! hemisphere sampling and sub-pixel jitter. The generator itself comes from
//! the `rand` crate; nothing beyond the range of each draw is assumed of it,
//! so every function that consumes a draw is verified for every value the
//! range admits.

use vstd::prelude::*;

use crate::fixed::{Fx, HALF_SCALE, SCALE};

verus! {

#[verifier::external_type_specification]
#[verifier::external_body]
pub struct ExSmallRng(rand::rngs::SmallRng);

/// A seeded pseudo-random source; each render worker owns one of its own.
pub struct Rng {
    inner: rand::rngs::SmallRng,
}

impl Rng {
    /// Relies on rand's `SeedableRng::seed_from_u64` for `SmallRng`: builds a
    /// generator from a 64-bit seed.
    #[verifier::external_body]
    pub fn from_seed(seed: u64) -> Rng {
        Rng { inner: <rand::rngs::SmallRng as rand::SeedableRng>::seed_from_u64(seed) }
    }

    /// Relies on rand's `Rng::random_range` over `0..bound`: returns a value
    /// below `bound` (the range must be non-empty or the call panics).
    #[verifier::external_body]
    pub fn below(&mut self, bound: u64) -> (r: u64)
        requires
            bound >= 1,
        ensures
            r < bound,
    {
        rand::Rng::random_range(&mut self.inner, 0..bound)
    }

    /// A fixed-point value uniform in `[0, 1)`.
    pub fn unit_fraction(&mut self) -> (r: Fx)
        ensures
            0 <= r.raw < SCALE,
            r.ok(),
    {
        let v = self.below(SCALE as u64);
        Fx { raw: v as i64 }
    }

    /// A fixed-point value uniform in `[-1, 1)`.
    pub fn symmetric_unit(&mut self) -> (r: Fx)
        ensures
            -SCALE <= r.raw < SCALE,
            r.ok(),
    {
        let v = self.below(2 * (SCALE as u64));
        Fx { raw: (v as i64) - SCALE }
    }

    /// A fixed-point jitter uniform in `[-1/2, 1/2)`.
    pub fn jitter(&mut self) -> (r: Fx)
        ensures
            -HALF_SCALE <= r.raw < HALF_SCALE,
            r.ok(),
    {
        let v = self.below(SCALE as u64);
        Fx { raw: (v as i64) - HALF_SCALE }
    }
}

} // verus!
