//! The abstract machine: a mathematical mirror of the interpreter state
//! and the exact meaning of each fetch-decode-execute step.
//!
//! `step_spec` gives the semantics of a single step; `run_spec` folds it
//! over a trace of random bytes (one byte per step, consulted only by the
//! RANDOM_AND instruction).  The executable interpreter in `cpu` is proved
//! to follow these functions exactly.

use vstd::prelude::*;

use crate::decode::op_c;
use crate::decode::op_d;
use crate::decode::op_kk;
use crate::decode::op_nnn;
use crate::decode::op_x;
use crate::decode::op_y;
use crate::decode::opcode_at;

verus! {

/// Bytes of addressable memory.
pub const MEM_SIZE: usize = 4096;

/// Number of general-purpose registers.
pub const NUM_REGS: usize = 16;

/// Capacity of the call stack.
pub const STACK_SIZE: usize = 16;

/// Index of the carry/borrow/shift flag register.
pub const FLAG_REG: usize = 15;

/// Conventional start address of a program image.
pub const START_ADDR: usize = 0x200;

/// A fatal condition that aborts the run loop; no further instruction is
/// executed after one of these is raised.
#[derive(Clone, Copy, Debug, PartialEq, Eq, Structural)]
pub enum Fault {
    /// CALL attempted while the call stack is at capacity.
    StackOverflow,
    /// RETURN attempted while the call stack is empty.
    StackUnderflow,
    /// An instruction fetch would read past the end of memory.
    OutOfBoundsFetch,
    /// The decoded fields match no defined and no stubbed instruction.
    UnknownOpcode,
    /// The decoded fields match a recognized but intentionally stubbed
    /// instruction (display / keyboard / timer / BCD / register block
    /// transfer / font lookup), owned by an external collaborator.
    NotImplemented,
}

/// Whether the interpreter may keep fetching after a successful step.
#[derive(Clone, Copy, Debug, PartialEq, Eq, Structural)]
pub enum Status {
    /// The step executed an ordinary instruction.
    Running,
    /// The step fetched the halt encoding.
    Halted,
}

/// The machine state, abstractly: the register file, the index register,
/// memory, the program counter, and the bounded call stack with its
/// pointer.
#[verifier::ext_equal]
pub ghost struct State {
    pub regs: Seq<u8>,
    pub index: u16,
    pub mem: Seq<u8>,
    pub pc: int,
    pub stack: Seq<u16>,
    pub sp: int,
}

impl State {
    /// Well-formed state: sixteen registers, 4096 bytes of memory,
    /// sixteen stack slots, the stack pointer within capacity, and a
    /// program counter that fits in sixteen bits.
    pub open spec fn wf(self) -> bool {
        &&& self.regs.len() == NUM_REGS
        &&& self.mem.len() == MEM_SIZE
        &&& self.stack.len() == STACK_SIZE
        &&& 0 <= self.sp <= STACK_SIZE
        &&& 0 <= self.pc <= 0xFFFF
    }
}

/// The outcome of a single step.
pub ghost enum StepRes {
    /// The halt encoding was fetched; the state after the fetch.
    Halt(State),
    /// One instruction was executed; the state after it.
    Next(State),
    /// A fatal condition; the state at the moment of the fault.
    Fault(Fault, State),
}

/// Addition of two bytes, wrapping modulo 256.
pub open spec fn wrap_add(a: u8, b: u8) -> u8 {
    (if a + b > 255 {
        a + b - 256
    } else {
        a + b
    }) as u8
}

/// Subtraction `a - b` of two bytes, wrapping modulo 256 on underflow.
pub open spec fn wrap_sub(a: u8, b: u8) -> u8 {
    (if a >= b {
        a - b
    } else {
        a - b + 256
    }) as u8
}

/// ADD_REG: the wrapped sum into register `x`, then the carry (1 iff the
/// unsigned sum overflowed 8 bits) into the flag register.
pub open spec fn add_regs(regs: Seq<u8>, x: int, y: int) -> Seq<u8> {
    let carry: u8 = if regs[x] + regs[y] > 255 {
        1
    } else {
        0
    };
    regs.update(x, wrap_add(regs[x], regs[y])).update(FLAG_REG as int, carry)
}

/// SUB_REG: the borrow flag (1 iff `regs[x] > regs[y]`, judged before the
/// subtraction) into the flag register first, then the wrapped difference
/// `regs[x] - regs[y]` into register `x`.
pub open spec fn sub_regs(regs: Seq<u8>, x: int, y: int) -> Seq<u8> {
    let flag: u8 = if regs[x] > regs[y] {
        1
    } else {
        0
    };
    regs.update(FLAG_REG as int, flag).update(x, wrap_sub(regs[x], regs[y]))
}

/// SUBN_REG: the borrow flag (1 iff `regs[y] > regs[x]`) into the flag
/// register first, then the wrapped difference `regs[y] - regs[x]` into
/// register `x`.
pub open spec fn subn_regs(regs: Seq<u8>, x: int, y: int) -> Seq<u8> {
    let flag: u8 = if regs[y] > regs[x] {
        1
    } else {
        0
    };
    regs.update(FLAG_REG as int, flag).update(x, wrap_sub(regs[y], regs[x]))
}

/// SHR: the pre-shift least-significant bit of register `x` into the flag
/// register first, then register `x` shifted right by one.
pub open spec fn shr_regs(regs: Seq<u8>, x: int) -> Seq<u8> {
    regs.update(FLAG_REG as int, regs[x] & 1).update(x, regs[x] >> 1u8)
}

/// SHL: the pre-shift most-significant bit of register `x` into the flag
/// register first, then the low byte of register `x` shifted left by one.
pub open spec fn shl_regs(regs: Seq<u8>, x: int) -> Seq<u8> {
    regs.update(FLAG_REG as int, regs[x] >> 7u8).update(x, regs[x] << 1u8)
}

/// The recognized but intentionally stubbed encodings: draw sprite, the
/// key-press queries, the timers, BCD store, register block store/load,
/// and font-sprite address lookup.  They are reserved for the external
/// display/input/timer collaborators and raise `NotImplemented`.
pub open spec fn is_stubbed(c: u8, y: u8, d: u8) -> bool {
    ||| c == 0xD
    ||| (c == 0xE && y == 0x9 && d == 0xE)
    ||| (c == 0xE && y == 0xA && d == 0x1)
    ||| (c == 0xF && y == 0x0 && d == 0x7)
    ||| (c == 0xF && y == 0x0 && d == 0xA)
    ||| (c == 0xF && y == 0x1 && d == 0x5)
    ||| (c == 0xF && y == 0x1 && d == 0x8)
    ||| (c == 0xF && y == 0x1 && d == 0xE)
    ||| (c == 0xF && y == 0x2 && d == 0x9)
    ||| (c == 0xF && y == 0x3 && d == 0x3)
    ||| (c == 0xF && y == 0x5 && d == 0x5)
    ||| (c == 0xF && y == 0x6 && d == 0x5)
}

/// The meaning of one fetch-decode-execute step from state `s`.
///
/// `rnd` stands for the byte the process-wide uniform generator hands
/// out; it is consulted only by the RANDOM_AND instruction.  The program
/// counter is advanced past the fetched instruction before the
/// instruction body applies, so a jump or call fully overwrites the
/// advance and a skip adds to it.
pub open spec fn step_spec(s: State, rnd: u8) -> StepRes {
    if s.pc + 2 > MEM_SIZE {
        StepRes::Fault(Fault::OutOfBoundsFetch, s)
    } else {
        let op = opcode_at(s.mem, s.pc);
        let c = op_c(op);
        let x = op_x(op) as int;
        let y = op_y(op);
        let d = op_d(op);
        let nnn = op_nnn(op);
        let kk = op_kk(op);
        let t = State { pc: s.pc + 2, ..s };
        if c == 0x0 && x == 0 && y == 0x0 && d == 0x0 {
            StepRes::Halt(t)
        } else if c == 0x0 && x == 0 && y == 0xE && d == 0xE {
            if t.sp == 0 {
                StepRes::Fault(Fault::StackUnderflow, t)
            } else {
                StepRes::Next(State { sp: t.sp - 1, pc: t.stack[t.sp - 1] as int, ..t })
            }
        } else if c == 0x1 {
            StepRes::Next(State { pc: nnn as int, ..t })
        } else if c == 0x2 {
            if t.sp == STACK_SIZE {
                StepRes::Fault(Fault::StackOverflow, t)
            } else {
                StepRes::Next(
                    State {
                        stack: t.stack.update(t.sp, t.pc as u16),
                        sp: t.sp + 1,
                        pc: nnn as int,
                        ..t
                    },
                )
            }
        } else if c == 0x3 {
            StepRes::Next(
                if t.regs[x] == kk {
                    State { pc: t.pc + 2, ..t }
                } else {
                    t
                },
            )
        } else if c == 0x4 {
            StepRes::Next(
                if t.regs[x] != kk {
                    State { pc: t.pc + 2, ..t }
                } else {
                    t
                },
            )
        } else if c == 0x5 && d == 0x0 {
            StepRes::Next(
                if t.regs[x] == t.regs[y as int] {
                    State { pc: t.pc + 2, ..t }
                } else {
                    t
                },
            )
        } else if c == 0x6 {
            StepRes::Next(State { regs: t.regs.update(x, kk), ..t })
        } else if c == 0x7 {
            StepRes::Next(State { regs: t.regs.update(x, wrap_add(t.regs[x], kk)), ..t })
        } else if c == 0x8 && d == 0x0 {
            StepRes::Next(State { regs: t.regs.update(x, t.regs[y as int]), ..t })
        } else if c == 0x8 && d == 0x1 {
            StepRes::Next(State { regs: t.regs.update(x, t.regs[x] | t.regs[y as int]), ..t })
        } else if c == 0x8 && d == 0x2 {
            StepRes::Next(State { regs: t.regs.update(x, t.regs[x] & t.regs[y as int]), ..t })
        } else if c == 0x8 && d == 0x3 {
            StepRes::Next(State { regs: t.regs.update(x, t.regs[x] ^ t.regs[y as int]), ..t })
        } else if c == 0x8 && d == 0x4 {
            StepRes::Next(State { regs: add_regs(t.regs, x, y as int), ..t })
        } else if c == 0x8 && d == 0x5 {
            StepRes::Next(State { regs: sub_regs(t.regs, x, y as int), ..t })
        } else if c == 0x8 && d == 0x6 {
            StepRes::Next(State { regs: shr_regs(t.regs, x), ..t })
        } else if c == 0x8 && d == 0x7 {
            StepRes::Next(State { regs: subn_regs(t.regs, x, y as int), ..t })
        } else if c == 0x8 && d == 0xE {
            StepRes::Next(State { regs: shl_regs(t.regs, x), ..t })
        } else if c == 0x9 {
            StepRes::Next(
                if t.regs[x] != t.regs[y as int] {
                    State { pc: t.pc + 2, ..t }
                } else {
                    t
                },
            )
        } else if c == 0xA {
            StepRes::Next(State { index: nnn, ..t })
        } else if c == 0xB {
            StepRes::Next(State { pc: t.regs[0] + nnn, ..t })
        } else if c == 0xC {
            StepRes::Next(State { regs: t.regs.update(x, rnd & kk), ..t })
        } else if is_stubbed(c, y, d) {
            StepRes::Fault(Fault::NotImplemented, t)
        } else {
            StepRes::Fault(Fault::UnknownOpcode, t)
        }
    }
}

/// The step outcome that the interpreter reports: the returned value `r`
/// paired with the state `s` the interpreter was left in.
pub open spec fn step_res_of(r: Result<Status, Fault>, s: State) -> StepRes {
    match r {
        Ok(Status::Halted) => StepRes::Halt(s),
        Ok(Status::Running) => StepRes::Next(s),
        Err(f) => StepRes::Fault(f, s),
    }
}

/// The outcome of running the machine along a trace of random bytes.
pub ghost enum RunRes {
    /// The trace was exhausted with the machine still running.
    Running(State),
    /// The halt encoding was reached; the final state.
    Halted(State),
    /// A fatal condition was reached; the fault and the faulting state.
    Faulted(Fault, State),
}

/// Running the machine from `s`, one step per entry of `rnds`, until a
/// halt or fault ends the run early or the trace is exhausted.
pub open spec fn run_spec(s: State, rnds: Seq<u8>) -> RunRes
    decreases rnds.len(),
{
    if rnds.len() == 0 {
        RunRes::Running(s)
    } else {
        match step_spec(s, rnds[0]) {
            StepRes::Halt(s2) => RunRes::Halted(s2),
            StepRes::Fault(f, s2) => RunRes::Faulted(f, s2),
            StepRes::Next(s2) => run_spec(s2, rnds.drop_first()),
        }
    }
}

/// Every byte of a trace lies below 255: the generator draws uniformly
/// from the half-open range [0, 255).
pub open spec fn trace_ok(rnds: Seq<u8>) -> bool {
    forall|i: int| 0 <= i < rnds.len() ==> rnds[i] < 255
}

/// Extending a still-running trace by one byte runs the machine for
/// exactly one more step.
pub proof fn lemma_run_spec_snoc(s: State, rnds: Seq<u8>, b: u8)
    requires
        run_spec(s, rnds) is Running,
    ensures
        run_spec(s, rnds.push(b)) == (match step_spec(run_spec(s, rnds)->Running_0, b) {
            StepRes::Halt(s2) => RunRes::Halted(s2),
            StepRes::Fault(f, s2) => RunRes::Faulted(f, s2),
            StepRes::Next(s2) => RunRes::Running(s2),
        }),
    decreases rnds.len(),
{
    reveal_with_fuel(run_spec, 2);
    if rnds.len() == 0 {
        assert(rnds.push(b)[0] == b);
        assert(rnds.push(b).drop_first() =~= Seq::<u8>::empty());
    } else {
        assert(rnds.push(b)[0] == rnds[0]);
        assert(rnds.push(b).drop_first() =~= rnds.drop_first().push(b));
        match step_spec(s, rnds[0]) {
            StepRes::Next(s2) => {
                lemma_run_spec_snoc(s2, rnds.drop_first(), b);
            },
            StepRes::Halt(s2) => {
            },
            StepRes::Fault(f, s2) => {
            },
        }
    }
}

} // verus!
