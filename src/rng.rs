//! A 64-bit linear-congruential generator whose outputs are the high half of
//! each new state.
use vstd::arithmetic::div_mod::lemma_add_mod_noop;
use vstd::prelude::*;

verus! {

/// Multiplier of the generator.
pub const LCG_MULTIPLIER: u64 = 6364136223846793005;

/// Seed used when the clock cannot give one.
pub const FALLBACK_SEED: u64 = 0x1234_5678;

/// The state that follows `s`: `s * LCG_MULTIPLIER + 1` modulo 2^64.
pub open spec fn lcg_step(s: u64) -> u64 {
    ((s as int * LCG_MULTIPLIER as int + 1) % 0x1_0000_0000_0000_0000) as u64
}

/// The value drawn from state `s`: the high 32 bits of the next state.
pub open spec fn lcg_value(s: u64) -> u32 {
    (lcg_step(s) as int / 0x1_0000_0000) as u32
}

/// The seed taken from a clock reading in nanoseconds since the epoch: its
/// low 64 bits, or `FALLBACK_SEED` when there is no reading or those bits are
/// all zero, so that a seed is never the all-zero state.
pub open spec fn clock_seed(nanos: Option<u128>) -> u64 {
    match nanos {
        Some(n) if n as int % 0x1_0000_0000_0000_0000 != 0 => (n as int
            % 0x1_0000_0000_0000_0000) as u64,
        _ => FALLBACK_SEED,
    }
}

/// Advances `seed` by one step and returns the value drawn.
pub fn lcg_next(seed: &mut u64) -> (r: u32)
    ensures
        *final(seed) == lcg_step(*old(seed)),
        r == lcg_value(*old(seed)),
{
    let m = seed.wrapping_mul(LCG_MULTIPLIER);
    let s = m.wrapping_add(1);
    proof {
        let w: int = 0x1_0000_0000_0000_0000;
        lemma_add_mod_noop(*old(seed) as int * LCG_MULTIPLIER as int, 1, w);
        assert(s == lcg_step(*old(seed)));
        assert(s >> 32u64 == s / 0x1_0000_0000u64) by (bit_vector);
    }
    *seed = s;
    (s >> 32u64) as u32
}

/// The state after `seed` and the value drawn from it; the pair depends on
/// `seed` alone.
pub fn next_uint32(seed: u64) -> (r: (u64, u32))
    ensures
        r == (lcg_step(seed), lcg_value(seed)),
{
    let mut s = seed;
    let v = lcg_next(&mut s);
    (s, v)
}

/// Derives a seed from a clock reading (see `clock_seed`).
pub fn init_seed(nanos: Option<u128>) -> (r: u64)
    ensures
        r == clock_seed(nanos),
        r != 0,
{
    match nanos {
        Some(n) => {
            let low = (n % 0x1_0000_0000_0000_0000u128) as u64;
            if low != 0 {
                low
            } else {
                FALLBACK_SEED
            }
        },
        None => FALLBACK_SEED,
    }
}

} // verus!
