//! Fields of a 16-bit instruction word.
//!
//! A word is read as four nibbles, most significant first. The first one
//! selects the instruction family; the others are a register index `x`, a
//! register index `y` and a small constant `n`, or are read together as the
//! byte `nn` or the address `nnn`.

use vstd::prelude::*;

verus! {

/// The most significant nibble.
pub open spec fn family(op: u16) -> u16 {
    op / 0x1000
}

/// The second nibble: the register index `x`.
pub open spec fn x_field(op: u16) -> u16 {
    (op / 0x100) % 0x10
}

/// The third nibble: the register index `y`.
pub open spec fn y_field(op: u16) -> u16 {
    (op / 0x10) % 0x10
}

/// The least significant nibble: the constant `n`.
pub open spec fn n_field(op: u16) -> u16 {
    op % 0x10
}

/// The low byte: the constant `nn`.
pub open spec fn nn_field(op: u16) -> u8 {
    (op % 0x100) as u8
}

/// The low twelve bits: the address `nnn`.
pub open spec fn nnn_field(op: u16) -> u16 {
    op % 0x1000
}

/// The instruction word made of two bytes, the high byte first.
pub open spec fn word_of(high: u8, low: u8) -> u16 {
    (high * 0x100 + low) as u16
}

/// Whether `op` matches one of the instruction patterns.
pub open spec fn recognized(op: u16) -> bool {
    match (family(op), x_field(op), y_field(op), n_field(op)) {
        (0, 0, 0, 0) | (0, 0, 0xE, 0) | (0, 0, 0xE, 0xE) => true,
        (1, _, _, _) | (2, _, _, _) | (3, _, _, _) | (4, _, _, _) => true,
        (5, _, _, 0) | (9, _, _, 0) => true,
        (6, _, _, _) | (7, _, _, _) => true,
        (8, _, _, 0) | (8, _, _, 1) | (8, _, _, 2) | (8, _, _, 3) => true,
        (8, _, _, 4) | (8, _, _, 5) | (8, _, _, 6) => true,
        (0xA, _, _, _) | (0xB, _, _, _) | (0xC, _, _, _) | (0xD, _, _, _) => true,
        (0xE, _, 9, 0xE) | (0xE, _, 0xA, 1) => true,
        (0xF, _, 0, 7) | (0xF, _, 0, 0xA) => true,
        (0xF, _, 1, 5) | (0xF, _, 1, 8) | (0xF, _, 1, 0xE) => true,
        (0xF, _, 2, 9) | (0xF, _, 3, 3) | (0xF, _, 5, 5) | (0xF, _, 6, 5) => true,
        _ => false,
    }
}

/// Whether executing `op` consumes a random byte.
pub open spec fn uses_random(op: u16) -> bool {
    family(op) == 0xC
}

/// Combines two bytes into an instruction word, the high byte first.
pub fn word(high: u8, low: u8) -> (op: u16)
    ensures
        op == word_of(high, low),
{
    let higher_byte: u16 = high as u16;
    let lower_byte: u16 = low as u16;
    assert((higher_byte << 8) | lower_byte == higher_byte * 0x100 + lower_byte) by (bit_vector)
        requires
            higher_byte < 0x100,
            lower_byte < 0x100,
    ;
    (higher_byte << 8) | lower_byte
}

/// Splits `op` into its four nibbles, most significant first.
pub fn nibbles(op: u16) -> (d: (u16, u16, u16, u16))
    ensures
        d.0 == family(op),
        d.1 == x_field(op),
        d.2 == y_field(op),
        d.3 == n_field(op),
{
    assert((op & 0xF000) >> 12 == op / 0x1000) by (bit_vector);
    assert((op & 0x0F00) >> 8 == (op / 0x100) % 0x10) by (bit_vector);
    assert((op & 0x00F0) >> 4 == (op / 0x10) % 0x10) by (bit_vector);
    assert(op & 0x000F == op % 0x10) by (bit_vector);
    ((op & 0xF000) >> 12, (op & 0x0F00) >> 8, (op & 0x00F0) >> 4, op & 0x000F)
}

/// The low byte of `op`.
pub fn low_byte(op: u16) -> (nn: u8)
    ensures
        nn == nn_field(op),
{
    assert(op & 0xFF == op % 0x100) by (bit_vector);
    (op & 0xFF) as u8
}

/// The low twelve bits of `op`.
pub fn address(op: u16) -> (nnn: u16)
    ensures
        nnn == nnn_field(op),
{
    assert(op & 0xFFF == op % 0x1000) by (bit_vector);
    op & 0xFFF
}

} // verus!
