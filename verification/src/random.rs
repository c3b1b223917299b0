//! The source of random bytes: a linear congruential generator modulo 2^32.
//!
//! The host seeds it; from then on every state follows from the one before,
//! so a run can be repeated. A byte is taken from the top eight bits of the
//! state, the bits of a linear congruential generator that vary the most.

use vstd::prelude::*;
use vstd::arithmetic::div_mod::lemma_add_mod_noop_right;

verus! {

/// The factor of the generator's step.
pub const MULTIPLIER: u32 = 1664525;

/// The summand of the generator's step.
pub const INCREMENT: u32 = 1013904223;

/// The generator's next state: the state times `MULTIPLIER` plus
/// `INCREMENT`, modulo 2^32.
pub open spec fn next_random(state: u32) -> u32 {
    ((state * MULTIPLIER + INCREMENT) % 0x1_0000_0000) as u32
}

/// The byte that a generator state yields: its top eight bits.
pub open spec fn random_byte(state: u32) -> u8 {
    (state / 0x100_0000) as u8
}

/// Steps the generator once.
pub fn step(state: u32) -> (next: u32)
    ensures
        next == next_random(state),
{
    let product = state.wrapping_mul(MULTIPLIER);
    let next = product.wrapping_add(INCREMENT);
    proof {
        let exact = state as int * 1664525;
        assert(product == exact % 0x1_0000_0000);
        assert(next == (1013904223 + product) % 0x1_0000_0000);
        lemma_add_mod_noop_right(1013904223, exact, 0x1_0000_0000);
    }
    next
}

/// Takes the byte that a generator state yields.
pub fn top_byte(state: u32) -> (byte: u8)
    ensures
        byte == random_byte(state),
{
    assert(state >> 24 == state / 0x100_0000 && state >> 24 < 256) by (bit_vector);
    (state >> 24) as u8
}

} // verus!
