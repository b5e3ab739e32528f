//! Decoding of 16-bit instruction words into their fixed bit-fields.
//!
//! An instruction word is read big-endian from two consecutive memory
//! bytes and split into four nibbles `c`, `x`, `y`, `d` (instruction
//! class, two register indices, sub-opcode) plus the composite fields
//! `nnn` (12-bit address) and `kk` (8-bit immediate).

use vstd::prelude::*;

verus! {

/// The 16-bit instruction word formed big-endian from the two memory
/// bytes at address `pc`.
pub open spec fn opcode_at(mem: Seq<u8>, pc: int) -> u16 {
    ((mem[pc] as u16) << 8) | (mem[pc + 1] as u16)
}

/// Instruction class: bits 15-12.
pub open spec fn op_c(op: u16) -> u8 {
    ((op & 0xF000) >> 12) as u8
}

/// First register index operand: bits 11-8.
pub open spec fn op_x(op: u16) -> u8 {
    ((op & 0x0F00) >> 8) as u8
}

/// Second register index operand: bits 7-4.
pub open spec fn op_y(op: u16) -> u8 {
    ((op & 0x00F0) >> 4) as u8
}

/// Sub-opcode: bits 3-0.
pub open spec fn op_d(op: u16) -> u8 {
    (op & 0x000F) as u8
}

/// 12-bit address / immediate operand: bits 11-0.
pub open spec fn op_nnn(op: u16) -> u16 {
    op & 0x0FFF
}

/// 8-bit immediate operand: bits 7-0.
pub open spec fn op_kk(op: u16) -> u8 {
    (op & 0x00FF) as u8
}

/// The four nibbles are nibbles and the address field is 12 bits wide.
pub proof fn lemma_field_bounds(op: u16)
    ensures
        op_c(op) < 16,
        op_x(op) < 16,
        op_y(op) < 16,
        op_d(op) < 16,
        op_nnn(op) < 0x1000,
{
    assert((((op & 0xF000) >> 12) as u8) < 16) by (bit_vector);
    assert((((op & 0x0F00) >> 8) as u8) < 16) by (bit_vector);
    assert((((op & 0x00F0) >> 4) as u8) < 16) by (bit_vector);
    assert(((op & 0x000F) as u8) < 16) by (bit_vector);
    assert((op & 0x0FFF) < 0x1000) by (bit_vector);
}

/// Splits an instruction word into `(c, x, y, d)`, its four nibbles.
pub fn decode_nibbles(op: u16) -> (f: (u8, u8, u8, u8))
    ensures
        f.0 == op_c(op),
        f.1 == op_x(op),
        f.2 == op_y(op),
        f.3 == op_d(op),
        f.0 < 16 && f.1 < 16 && f.2 < 16 && f.3 < 16,
{
    proof {
        lemma_field_bounds(op);
    }
    let c = ((op & 0xF000) >> 12) as u8;
    let x = ((op & 0x0F00) >> 8) as u8;
    let y = ((op & 0x00F0) >> 4) as u8;
    let d = (op & 0x000F) as u8;
    (c, x, y, d)
}

/// Extracts the 12-bit address operand `nnn`.
pub fn decode_nnn(op: u16) -> (nnn: u16)
    ensures
        nnn == op_nnn(op),
        nnn < 0x1000,
{
    proof {
        lemma_field_bounds(op);
    }
    op & 0x0FFF
}

/// Extracts the 8-bit immediate operand `kk`.
pub fn decode_kk(op: u16) -> (kk: u8)
    ensures
        kk == op_kk(op),
{
    (op & 0x00FF) as u8
}

} // verus!
