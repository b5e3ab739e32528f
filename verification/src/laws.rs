//! The general laws of the instruction semantics, proved once and for
//! all: the flag behaviour of the arithmetic and shift instructions, and
//! the call/return discipline of the bounded stack.

use vstd::prelude::*;

use crate::decode::op_c;
use crate::decode::op_d;
use crate::decode::op_nnn;
use crate::decode::op_x;
use crate::decode::op_y;
use crate::decode::opcode_at;
use crate::machine::add_regs;
use crate::machine::step_spec;
use crate::machine::sub_regs;
use crate::machine::shr_regs;
use crate::machine::Fault;
use crate::machine::State;
use crate::machine::StepRes;
use crate::machine::FLAG_REG;
use crate::machine::MEM_SIZE;
use crate::machine::NUM_REGS;
use crate::machine::STACK_SIZE;

verus! {

/// ADD_REG: the flag register always ends up holding the carry of the
/// unsigned sum — 1 when `regs[x] + regs[y]` exceeds 255, else 0 — and,
/// as long as `x` is not the flag register itself (which the carry then
/// overwrites), register `x` ends up holding the sum modulo 256.
pub proof fn lemma_add_reg(regs: Seq<u8>, x: int, y: int)
    requires
        regs.len() == NUM_REGS,
        0 <= x < NUM_REGS,
        0 <= y < NUM_REGS,
    ensures
        add_regs(regs, x, y)[FLAG_REG as int] == (if regs[x] + regs[y] > 255 {
            1u8
        } else {
            0u8
        }),
        x != FLAG_REG ==> add_regs(regs, x, y)[x] == (regs[x] + regs[y]) % 256,
{
    let sum = regs[x] + regs[y];
    assert(sum % 256 == (if sum > 255 {
        sum - 256
    } else {
        sum
    })) by (nonlinear_arith)
        requires
            0 <= sum < 512,
    ;
}

/// SUB_REG: register `x` always ends up holding `regs[x] - regs[y]`
/// modulo 256, and, as long as `x` is not the flag register itself
/// (which the difference then overwrites), the flag register ends up
/// holding 1 exactly when `regs[x]` strictly exceeded `regs[y]` before
/// the subtraction.
pub proof fn lemma_sub_reg(regs: Seq<u8>, x: int, y: int)
    requires
        regs.len() == NUM_REGS,
        0 <= x < NUM_REGS,
        0 <= y < NUM_REGS,
    ensures
        sub_regs(regs, x, y)[x] == (regs[x] - regs[y]) % 256,
        x != FLAG_REG ==> sub_regs(regs, x, y)[FLAG_REG as int] == (if regs[x] > regs[y] {
            1u8
        } else {
            0u8
        }),
{
    let diff = regs[x] - regs[y];
    assert(diff % 256 == (if diff >= 0 {
        diff
    } else {
        diff + 256
    })) by (nonlinear_arith)
        requires
            -256 < diff < 256,
    ;
}

/// SHR: as long as `x` is not the flag register itself (which the shifted
/// value then overwrites), the flag register ends up holding the bit that
/// was in position 0 of register `x` before the shift — not the bit left
/// there afterwards — and register `x` ends up shifted right by one.
pub proof fn lemma_shr_flag(regs: Seq<u8>, x: int)
    requires
        regs.len() == NUM_REGS,
        0 <= x < NUM_REGS,
    ensures
        x != FLAG_REG ==> shr_regs(regs, x)[FLAG_REG as int] == regs[x] & 1,
        shr_regs(regs, x)[x] == regs[x] >> 1u8,
{
}

/// The nibbles of the RETURN encoding.
proof fn lemma_return_fields(op: u16)
    requires
        op == 0x00EE,
    ensures
        op_c(op) == 0,
        op_x(op) == 0,
        op_y(op) == 0xE,
        op_d(op) == 0xE,
{
    assert((((op & 0xF000) >> 12) as u8) == 0 && (((op & 0x0F00) >> 8) as u8) == 0 && (((op
        & 0x00F0) >> 4) as u8) == 0xE && ((op & 0x000F) as u8) == 0xE) by (bit_vector)
        requires
            op == 0x00EE,
    ;
}

/// A CALL followed immediately by a RETURN restores the program counter
/// to the address just after the CALL instruction and leaves the stack
/// pointer, the registers, the index register and memory as they were
/// before the CALL.  `b1` and `b2` are arbitrary: neither instruction
/// consults the random generator.
pub proof fn lemma_call_then_return(s: State, b1: u8, b2: u8)
    requires
        s.wf(),
        s.pc + 2 <= MEM_SIZE,
        op_c(opcode_at(s.mem, s.pc)) == 0x2,
        s.sp < STACK_SIZE,
        op_nnn(opcode_at(s.mem, s.pc)) + 2 <= MEM_SIZE,
        opcode_at(s.mem, op_nnn(opcode_at(s.mem, s.pc)) as int) == 0x00EE,
    ensures
        step_spec(s, b1) matches StepRes::Next(s1) && (step_spec(s1, b2) matches StepRes::Next(
            s2,
        ) && s2.pc == s.pc + 2 && s2.sp == s.sp && s2.regs == s.regs && s2.index == s.index
            && s2.mem == s.mem),
{
    let nnn = op_nnn(opcode_at(s.mem, s.pc));
    lemma_return_fields(opcode_at(s.mem, nnn as int));
}

/// A CALL with room on the stack succeeds: it saves the address just
/// after the CALL instruction in the next free slot, deepens the stack by
/// one, and jumps to the call target.
pub proof fn lemma_call_below_capacity(s: State, b: u8)
    requires
        s.wf(),
        s.pc + 2 <= MEM_SIZE,
        op_c(opcode_at(s.mem, s.pc)) == 0x2,
        s.sp < STACK_SIZE,
    ensures
        step_spec(s, b) matches StepRes::Next(s1) && (s1.sp == s.sp + 1 && s1.stack[s.sp] == s.pc
            + 2 && s1.pc == op_nnn(opcode_at(s.mem, s.pc)) && s1.regs == s.regs && s1.mem
            == s.mem),
{
}

/// A CALL with the call stack at capacity faults with `StackOverflow`,
/// leaving everything but the advanced program counter untouched.
pub proof fn lemma_call_overflow(s: State, b: u8)
    requires
        s.wf(),
        s.pc + 2 <= MEM_SIZE,
        op_c(opcode_at(s.mem, s.pc)) == 0x2,
        s.sp == STACK_SIZE,
    ensures
        step_spec(s, b) == StepRes::Fault(Fault::StackOverflow, (State { pc: s.pc + 2, ..s })),
{
}

/// A RETURN with an empty call stack faults with `StackUnderflow`,
/// leaving everything but the advanced program counter untouched.
pub proof fn lemma_return_underflow(s: State, b: u8)
    requires
        s.wf(),
        s.pc + 2 <= MEM_SIZE,
        opcode_at(s.mem, s.pc) == 0x00EE,
        s.sp == 0,
    ensures
        step_spec(s, b) == StepRes::Fault(Fault::StackUnderflow, (State { pc: s.pc + 2, ..s })),
{
    lemma_return_fields(opcode_at(s.mem, s.pc));
}

} // verus!
