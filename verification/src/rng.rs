//! Deterministic pseudo-random state for stochastic scattering.
//!
//! The host injects a base seed, so runs are reproducible; every derived
//! seed is an exact function of the base seed and the sample, dispatch and
//! ray indices it mixes in.

use vstd::prelude::*;

verus! {

use vstd::wrapping::u64_specs;

/// Multiplier of the linear-congruential step.
pub const LCG_MUL: u64 = 6364136223846793005;

/// Increment of the linear-congruential step.
pub const LCG_ADD: u64 = 1442695040888963407;

/// One step of the linear-congruential generator.
pub open spec fn lcg_next_s(s: u64) -> u64 {
    u64_specs::wrapping_add(u64_specs::wrapping_mul(s, LCG_MUL), LCG_ADD)
}

/// A counter mixed into a seed: the derived seed of one sample, one
/// dispatch or one ray slot.
pub open spec fn seed_mix_s(s: u64, k: u64) -> u64 {
    lcg_next_s(u64_specs::wrapping_add(s, k))
}

/// A raw Q16.16 draw in `[-1, 1)` taken from the high bits of a state.
pub open spec fn rand_sym_s(s: u64) -> int {
    (s as int / 0x800000000000) % 131072 - 65536
}

/// A raw Q16.16 draw in `[0, 1)` taken from the high bits of a state.
pub open spec fn rand01_s(s: u64) -> int {
    (s as int / 0x1000000000000) % 65536
}

/// One step of the linear-congruential generator.
pub fn lcg_next(s: u64) -> (r: u64)
    ensures
        r == lcg_next_s(s),
{
    s.wrapping_mul(LCG_MUL).wrapping_add(LCG_ADD)
}

/// Mix a counter into a seed.
pub fn seed_mix(s: u64, k: u64) -> (r: u64)
    ensures
        r == seed_mix_s(s, k),
{
    lcg_next(s.wrapping_add(k))
}

/// A raw Q16.16 draw in `[-1, 1)`.
pub fn rand_sym(s: u64) -> (r: i64)
    ensures
        r as int == rand_sym_s(s),
        -65536 <= r < 65536,
{
    let d: u64 = (s / 0x800000000000) % 131072;
    d as i64 - 65536
}

/// A raw Q16.16 draw in `[0, 1)`.
pub fn rand01(s: u64) -> (r: i64)
    ensures
        r as int == rand01_s(s),
        0 <= r < 65536,
{
    ((s / 0x1000000000000) % 65536) as i64
}

} // verus!
