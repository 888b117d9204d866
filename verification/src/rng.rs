//! A small linear-congruential generator that drives random reseeding.
//!
//! The generator itself is deterministic and fully specified; only the seed
//! comes from outside, through `time_entropy`.

use vstd::prelude::*;

verus! {

pub const LCG_MULTIPLIER: u64 = 6364136223846793005;

pub const LCG_INCREMENT: u64 = 1442695040888963407;

/// One step of the generator: multiply and add, both modulo 2^64.
pub open spec fn lcg_next(state: u64) -> u64 {
    vstd::wrapping::u64_specs::wrapping_add(
        vstd::wrapping::u64_specs::wrapping_mul(state, LCG_MULTIPLIER),
        LCG_INCREMENT,
    )
}

/// The generator's state after `k` steps from `seed`.
pub open spec fn lcg_state(seed: u64, k: nat) -> u64
    decreases k,
{
    if k == 0 {
        seed
    } else {
        lcg_next(lcg_state(seed, (k - 1) as nat))
    }
}

/// The boolean a generator state stands for: its top bit.
pub open spec fn lcg_bit(state: u64) -> bool {
    state >= 0x8000000000000000
}

/// Advances the generator by one step.
pub fn lcg_step(state: u64) -> (next: u64)
    ensures
        next == lcg_next(state),
{
    state.wrapping_mul(LCG_MULTIPLIER).wrapping_add(LCG_INCREMENT)
}

/// Reads the generator state's top bit.
pub fn lcg_step_bit(state: u64) -> (bit: bool)
    ensures
        bit == lcg_bit(state),
{
    state >= 0x8000000000000000
}

/// Relies on std::time::SystemTime::now: the seed is the clock's current
/// reading in nanoseconds; nothing is assumed of its value.
#[verifier::external_body]
pub(crate) fn time_entropy() -> u64 {
    match std::time::SystemTime::now().duration_since(std::time::UNIX_EPOCH) {
        Ok(elapsed) => elapsed.as_nanos() as u64,
        Err(_) => 0,
    }
}

} // verus!
