//! Arithmetic on eight and sixteen bits.
//!
//! Registers wrap around: results are taken modulo 2^8, addresses modulo
//! 2^16, and what was lost comes back beside the result.

use vstd::prelude::*;

verus! {

/// `i` reduced modulo 2^8.
pub open spec fn wrap8(i: int) -> u8 {
    (i % 0x100) as u8
}

/// `i` reduced modulo 2^16.
pub open spec fn wrap16(i: int) -> u16 {
    (i % 0x10000) as u16
}

/// The sum of `a` and `b` modulo 2^8, and whether it overflowed eight bits.
pub fn add_with_carry(a: u8, b: u8) -> (r: (u8, bool))
    ensures
        r.0 == wrap8(a + b),
        r.1 == (a + b > 0xFF),
{
    (a.wrapping_add(b), a as u16 + b as u16 > 0xFF)
}

/// The difference of `a` and `b` modulo 2^8, and whether it borrowed.
pub fn sub_with_borrow(a: u8, b: u8) -> (r: (u8, bool))
    ensures
        r.0 == wrap8(a - b),
        r.1 == (a < b),
{
    (a.wrapping_sub(b), a < b)
}

/// The sum of `a` and `b` modulo 2^16.
pub fn add_address(a: u16, b: u16) -> (sum: u16)
    ensures
        sum == wrap16(a + b),
{
    a.wrapping_add(b)
}

/// The difference of `a` and `b` modulo 2^16.
pub fn sub_address(a: u16, b: u16) -> (diff: u16)
    ensures
        diff == wrap16(a - b),
{
    a.wrapping_sub(b)
}

/// `a` shifted right by one bit, and the bit that dropped out.
pub fn shift_right(a: u8) -> (r: (u8, u8))
    ensures
        r.0 == a / 2,
        r.1 == a % 2,
{
    assert(a >> 1 == a / 2) by (bit_vector);
    assert(a & 1 == a % 2) by (bit_vector);
    (a >> 1, a & 1)
}

} // verus!
