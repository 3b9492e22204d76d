//! Bit-field extraction from 16-bit opcodes.
//!
//! An opcode is four hexadecimal digits. Each extractor returns one digit or a
//! run of low digits; the specifications state them arithmetically.

use vstd::prelude::*;

verus! {

/// Bits 12-15: the opcode family.
pub open spec fn top_nibble(v: u16) -> u8 {
    (v / 0x1000) as u8
}

/// Bits 8-11: register X.
pub open spec fn second_nibble(v: u16) -> u8 {
    ((v / 0x100) % 0x10) as u8
}

/// Bits 4-7: register Y.
pub open spec fn third_nibble(v: u16) -> u8 {
    ((v / 0x10) % 0x10) as u8
}

/// Bits 0-3: sub-opcode or row count N.
pub open spec fn fourth_nibble(v: u16) -> u8 {
    (v % 0x10) as u8
}

/// Bits 0-7: immediate NN.
pub open spec fn low_byte(v: u16) -> u8 {
    (v % 0x100) as u8
}

/// Bits 0-11: address NNN.
pub open spec fn low_12_bits(v: u16) -> u16 {
    (v % 0x1000) as u16
}

pub fn xooo(value: &u16) -> (r: u8)
    ensures
        r == top_nibble(*value),
        r < 0x10,
{
    let v: u16 = *value;
    assert((v >> 12) & 0xF == v / 0x1000) by (bit_vector);
    ((v >> 12) & 0xF) as u8
}

pub fn oxoo(value: &u16) -> (r: u8)
    ensures
        r == second_nibble(*value),
        r < 0x10,
{
    let v: u16 = *value;
    assert((v >> 8) & 0xF == (v / 0x100) % 0x10) by (bit_vector);
    ((v >> 8) & 0xF) as u8
}

pub fn ooxo(value: &u16) -> (r: u8)
    ensures
        r == third_nibble(*value),
        r < 0x10,
{
    let v: u16 = *value;
    assert((v >> 4) & 0xF == (v / 0x10) % 0x10) by (bit_vector);
    ((v >> 4) & 0xF) as u8
}

pub fn ooox(value: &u16) -> (r: u8)
    ensures
        r == fourth_nibble(*value),
        r < 0x10,
{
    let v: u16 = *value;
    assert(v & 0xF == v % 0x10) by (bit_vector);
    (v & 0xF) as u8
}

pub fn ooxx(value: &u16) -> (r: u8)
    ensures
        r == low_byte(*value),
{
    let v: u16 = *value;
    assert(v & 0xFF == v % 0x100) by (bit_vector);
    (v & 0xFF) as u8
}

pub fn oxxx(value: &u16) -> (r: u16)
    ensures
        r == low_12_bits(*value),
        r < 0x1000,
{
    let v: u16 = *value;
    assert(v & 0xFFF == v % 0x1000) by (bit_vector);
    v & 0xFFF
}

/// The four digits of an opcode determine it.
pub proof fn lemma_nibbles_compose(v: u16)
    ensures
        v == top_nibble(v) * 0x1000 + second_nibble(v) * 0x100 + third_nibble(v) * 0x10
            + fourth_nibble(v),
        low_byte(v) == third_nibble(v) * 0x10 + fourth_nibble(v),
        low_12_bits(v) == second_nibble(v) * 0x100 + low_byte(v),
{
}

} // verus!
