//! Eight-bit arithmetic with its flags: the operations whose result goes to
//! a register and whose carry, borrow or shifted-out bit goes to the flag
//! register.

use vstd::prelude::*;

verus! {

/// The sum of two bytes, wrapped to eight bits.
pub fn add_wrapping(a: u8, b: u8) -> (sum: u8)
    ensures
        sum == (a + b) % 256,
{
    a.wrapping_add(b)
}

/// Adds two bytes. The flag is 1 exactly when the sum does not fit in eight
/// bits; the result is the sum wrapped to eight bits.
pub fn add_with_carry(a: u8, b: u8) -> (r: (u8, u8))
    ensures
        r.0 == (if a + b > 255 { 1int } else { 0int }),
        r.1 == (a + b) % 256,
{
    let carry: u8 = if a as u16 + b as u16 > 255 {
        1
    } else {
        0
    };
    (carry, a.wrapping_add(b))
}

/// Subtracts `b` from `a`. The flag is 1 exactly when no borrow is needed,
/// that is when `a` is at least `b`; the result is the difference wrapped to
/// eight bits.
pub fn sub_with_borrow(a: u8, b: u8) -> (r: (u8, u8))
    ensures
        r.0 == (if a >= b { 1int } else { 0int }),
        r.1 == (a - b) % 256,
{
    let no_borrow: u8 = if a >= b {
        1
    } else {
        0
    };
    (no_borrow, a.wrapping_sub(b))
}

/// Shifts a byte right by one bit. The flag is the bit that fell out, the
/// lowest; the result is the half, rounded down.
pub fn shift_right(b: u8) -> (r: (u8, u8))
    ensures
        r.0 == b % 2,
        r.1 == b / 2,
{
    assert(b & 1 == b % 2 && b >> 1 == b / 2) by (bit_vector);
    (b & 1, b >> 1)
}

/// Shifts a byte left by one bit. The flag is the bit that fell out, the
/// highest; the result is the double wrapped to eight bits.
pub fn shift_left(b: u8) -> (r: (u8, u8))
    ensures
        r.0 == b / 128,
        r.1 == (b * 2) % 256,
{
    assert(b >> 7 == b / 128 && b << 1 == (b * 2) % 256) by (bit_vector);
    (b >> 7, b << 1)
}

} // verus!
