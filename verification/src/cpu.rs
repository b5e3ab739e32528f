//! The executable interpreter: the machine state as data, one verified
//! method per instruction, and the fetch-decode-execute loop.
//!
//! Every method is proved to follow the abstract machine in `machine`:
//! `step` performs exactly one `step_spec` transition, and `run` returns
//! only when some trace of random bytes takes `run_spec` from the initial
//! state to the final one.

use vstd::prelude::*;

use rand::Rng;

use crate::decode::decode_kk;
use crate::decode::decode_nibbles;
use crate::decode::decode_nnn;
use crate::decode::opcode_at;
use crate::machine::add_regs;
use crate::machine::lemma_run_spec_snoc;
use crate::machine::run_spec;
use crate::machine::shl_regs;
use crate::machine::shr_regs;
use crate::machine::step_res_of;
use crate::machine::step_spec;
use crate::machine::sub_regs;
use crate::machine::subn_regs;
use crate::machine::trace_ok;
use crate::machine::wrap_add;
use crate::machine::Fault;
use crate::machine::RunRes;
use crate::machine::State;
use crate::machine::Status;
use crate::machine::StepRes;
use crate::machine::FLAG_REG;
use crate::machine::MEM_SIZE;
use crate::machine::NUM_REGS;
use crate::machine::STACK_SIZE;
use crate::machine::START_ADDR;

verus! {

/// Relies on `rand::rng` and `rand::Rng::random_range`: a byte drawn
/// uniformly from the half-open range [0, 255), so always strictly below
/// 255.  The range is non-empty, so the call does not panic.
#[verifier::external_body]
fn random_below_255() -> (r: u8)
    ensures
        r < 255,
{
    let mut rng = rand::rng();
    rng.random_range(0..255)
}

/// The machine state: sixteen 8-bit registers (register 15 doubles as the
/// carry/borrow/shift flag), a 16-bit index register, 4096 bytes of
/// memory, the program counter, and a sixteen-entry call stack with its
/// stack pointer.
pub struct Cpu {
    pub registers: Vec<u8>,
    pub register_i: u16,
    pub memory: Vec<u8>,
    pub prog_counter: usize,
    pub stack: Vec<u16>,
    pub stack_pointer: usize,
}

impl View for Cpu {
    type V = State;

    open spec fn view(&self) -> State {
        State {
            regs: self.registers@,
            index: self.register_i,
            mem: self.memory@,
            pc: self.prog_counter as int,
            stack: self.stack@,
            sp: self.stack_pointer as int,
        }
    }
}

/// A vector of `n` zero bytes.
fn zero_bytes(n: usize) -> (v: Vec<u8>)
    ensures
        v@.len() == n,
        forall|i: int| 0 <= i < n ==> v@[i] == 0,
{
    let mut v: Vec<u8> = Vec::new();
    let mut k: usize = 0;
    while k < n
        invariant
            k <= n,
            v@.len() == k,
            forall|i: int| 0 <= i < k ==> v@[i] == 0,
        decreases n - k,
    {
        v.push(0);
        k = k + 1;
    }
    v
}

/// A vector of `n` zero 16-bit words.
fn zero_words(n: usize) -> (v: Vec<u16>)
    ensures
        v@.len() == n,
        forall|i: int| 0 <= i < n ==> v@[i] == 0,
{
    let mut v: Vec<u16> = Vec::new();
    let mut k: usize = 0;
    while k < n
        invariant
            k <= n,
            v@.len() == k,
            forall|i: int| 0 <= i < k ==> v@[i] == 0,
        decreases n - k,
    {
        v.push(0);
        k = k + 1;
    }
    v
}

impl Cpu {
    /// The state is well-formed, in the sense of the abstract machine.
    pub open spec fn wf(self) -> bool {
        self@.wf()
    }

    /// A fresh machine: all registers, memory and stack slots zero, the
    /// program counter at the conventional start address.
    pub fn new() -> (cpu: Cpu)
        ensures
            cpu.wf(),
            cpu@.pc == START_ADDR,
            cpu@.sp == 0,
            cpu@.index == 0,
            forall|i: int| 0 <= i < NUM_REGS ==> cpu@.regs[i] == 0,
            forall|i: int| 0 <= i < MEM_SIZE ==> cpu@.mem[i] == 0,
            forall|i: int| 0 <= i < STACK_SIZE ==> cpu@.stack[i] == 0,
    {
        Cpu {
            registers: zero_bytes(NUM_REGS),
            register_i: 0,
            memory: zero_bytes(MEM_SIZE),
            prog_counter: START_ADDR,
            stack: zero_words(STACK_SIZE),
            stack_pointer: 0,
        }
    }

    /// The 16-bit instruction word at the current program counter, read
    /// big-endian from two consecutive memory bytes.
    fn read_op_code(&self) -> (op: u16)
        requires
            self.wf(),
            self@.pc + 2 <= MEM_SIZE,
        ensures
            op == opcode_at(self@.mem, self@.pc),
    {
        let p = self.prog_counter;
        let op_byte1 = self.memory[p] as u16;
        let op_byte2 = self.memory[p + 1] as u16;
        (op_byte1 << 8u16) | op_byte2
    }

    /// JUMP: the program counter is overwritten with `addr`.
    fn jump(&mut self, addr: u16)
        ensures
            final(self)@ == (State { pc: addr as int, ..old(self)@ }),
    {
        self.prog_counter = addr as usize;
    }

    /// CALL: pushes the current program counter and jumps to `addr`;
    /// `StackOverflow` if the stack is at capacity, with nothing changed.
    fn call(&mut self, addr: u16) -> (r: Result<(), Fault>)
        requires
            old(self).wf(),
        ensures
            old(self)@.sp == STACK_SIZE ==> r == Err::<(), Fault>(Fault::StackOverflow)
                && final(self)@ == old(self)@,
            old(self)@.sp < STACK_SIZE ==> r == Ok::<(), Fault>(()) && final(self)@ == (State {
                stack: old(self)@.stack.update(old(self)@.sp, old(self)@.pc as u16),
                sp: old(self)@.sp + 1,
                pc: addr as int,
                ..old(self)@
            }),
    {
        let sp = self.stack_pointer;
        if sp >= STACK_SIZE {
            return Err(Fault::StackOverflow);
        }
        self.stack[sp] = self.prog_counter as u16;
        self.stack_pointer = sp + 1;
        self.prog_counter = addr as usize;
        Ok(())
    }

    /// RETURN: pops the stack into the program counter; `StackUnderflow`
    /// if the stack is empty, with nothing changed.
    fn rtrn(&mut self) -> (r: Result<(), Fault>)
        requires
            old(self).wf(),
        ensures
            old(self)@.sp == 0 ==> r == Err::<(), Fault>(Fault::StackUnderflow) && final(self)@
                == old(self)@,
            old(self)@.sp > 0 ==> r == Ok::<(), Fault>(()) && final(self)@ == (State {
                sp: old(self)@.sp - 1,
                pc: old(self)@.stack[old(self)@.sp - 1] as int,
                ..old(self)@
            }),
    {
        if self.stack_pointer == 0 {
            return Err(Fault::StackUnderflow);
        }
        self.stack_pointer = self.stack_pointer - 1;
        let call_addr = self.stack[self.stack_pointer];
        self.prog_counter = call_addr as usize;
        Ok(())
    }

    /// SKIP_EQ: advances the program counter by 2 more iff register `x`
    /// equals the immediate `kk`.
    fn skip_e(&mut self, x: u8, kk: u8)
        requires
            old(self).wf(),
            x < 16,
            old(self)@.pc + 2 <= 0xFFFF,
        ensures
            final(self)@ == (if old(self)@.regs[x as int] == kk {
                State { pc: old(self)@.pc + 2, ..old(self)@ }
            } else {
                old(self)@
            }),
    {
        if self.registers[x as usize] == kk {
            self.prog_counter = self.prog_counter + 2;
        }
    }

    /// SKIP_NEQ: advances the program counter by 2 more iff register `x`
    /// differs from the immediate `kk`.
    fn skip_ne(&mut self, x: u8, kk: u8)
        requires
            old(self).wf(),
            x < 16,
            old(self)@.pc + 2 <= 0xFFFF,
        ensures
            final(self)@ == (if old(self)@.regs[x as int] != kk {
                State { pc: old(self)@.pc + 2, ..old(self)@ }
            } else {
                old(self)@
            }),
    {
        if self.registers[x as usize] != kk {
            self.prog_counter = self.prog_counter + 2;
        }
    }

    /// SKIP_EQ_REG: advances the program counter by 2 more iff registers
    /// `x` and `y` are equal.
    fn skip_e_xy(&mut self, x: u8, y: u8)
        requires
            old(self).wf(),
            x < 16,
            y < 16,
            old(self)@.pc + 2 <= 0xFFFF,
        ensures
            final(self)@ == (if old(self)@.regs[x as int] == old(self)@.regs[y as int] {
                State { pc: old(self)@.pc + 2, ..old(self)@ }
            } else {
                old(self)@
            }),
    {
        if self.registers[x as usize] == self.registers[y as usize] {
            self.prog_counter = self.prog_counter + 2;
        }
    }

    /// SKIP_NEQ_REG: advances the program counter by 2 more iff registers
    /// `x` and `y` differ.
    fn sne_xy(&mut self, x: u8, y: u8)
        requires
            old(self).wf(),
            x < 16,
            y < 16,
            old(self)@.pc + 2 <= 0xFFFF,
        ensures
            final(self)@ == (if old(self)@.regs[x as int] != old(self)@.regs[y as int] {
                State { pc: old(self)@.pc + 2, ..old(self)@ }
            } else {
                old(self)@
            }),
    {
        if self.registers[x as usize] != self.registers[y as usize] {
            self.prog_counter = self.prog_counter + 2;
        }
    }

    /// LOAD_IMM: register `x` is overwritten with the immediate `kk`.
    fn ld_xkk(&mut self, x: u8, kk: u8)
        requires
            old(self).wf(),
            x < 16,
        ensures
            final(self)@ == (State { regs: old(self)@.regs.update(x as int, kk), ..old(self)@ }),
    {
        self.registers[x as usize] = kk;
    }

    /// ADD_IMM: the immediate `kk` is added to register `x`, wrapping
    /// modulo 256; the flag register is deliberately left alone.
    fn add_xkk(&mut self, x: u8, kk: u8)
        requires
            old(self).wf(),
            x < 16,
        ensures
            final(self)@ == (State {
                regs: old(self)@.regs.update(
                    x as int,
                    wrap_add(old(self)@.regs[x as int], kk),
                ),
                ..old(self)@
            }),
    {
        let vx = self.registers[x as usize];
        let sum: u16 = vx as u16 + kk as u16;
        let val: u8 = if sum > 255 {
            (sum - 256) as u8
        } else {
            sum as u8
        };
        self.registers[x as usize] = val;
    }

    /// MOV: register `x` is overwritten with register `y`.
    fn set_xy(&mut self, x: u8, y: u8)
        requires
            old(self).wf(),
            x < 16,
            y < 16,
        ensures
            final(self)@ == (State {
                regs: old(self)@.regs.update(x as int, old(self)@.regs[y as int]),
                ..old(self)@
            }),
    {
        self.registers[x as usize] = self.registers[y as usize];
    }

    /// OR: register `x` is overwritten with the bitwise or of registers
    /// `x` and `y`.
    fn or_xy(&mut self, x: u8, y: u8)
        requires
            old(self).wf(),
            x < 16,
            y < 16,
        ensures
            final(self)@ == (State {
                regs: old(self)@.regs.update(
                    x as int,
                    old(self)@.regs[x as int] | old(self)@.regs[y as int],
                ),
                ..old(self)@
            }),
    {
        self.registers[x as usize] = self.registers[x as usize] | self.registers[y as usize];
    }

    /// AND: register `x` is overwritten with the bitwise and of registers
    /// `x` and `y`.
    fn and_xy(&mut self, x: u8, y: u8)
        requires
            old(self).wf(),
            x < 16,
            y < 16,
        ensures
            final(self)@ == (State {
                regs: old(self)@.regs.update(
                    x as int,
                    old(self)@.regs[x as int] & old(self)@.regs[y as int],
                ),
                ..old(self)@
            }),
    {
        self.registers[x as usize] = self.registers[x as usize] & self.registers[y as usize];
    }

    /// XOR: register `x` is overwritten with the bitwise exclusive or of
    /// registers `x` and `y`.
    fn xor_xy(&mut self, x: u8, y: u8)
        requires
            old(self).wf(),
            x < 16,
            y < 16,
        ensures
            final(self)@ == (State {
                regs: old(self)@.regs.update(
                    x as int,
                    old(self)@.regs[x as int] ^ old(self)@.regs[y as int],
                ),
                ..old(self)@
            }),
    {
        self.registers[x as usize] = self.registers[x as usize] ^ self.registers[y as usize];
    }

    /// ADD_REG: registers `x` and `y` are added, wrapping modulo 256,
    /// into register `x`; the flag register is then overwritten with the
    /// carry (1 iff the unsigned sum overflowed 8 bits).
    fn add_xy(&mut self, x: u8, y: u8)
        requires
            old(self).wf(),
            x < 16,
            y < 16,
        ensures
            final(self)@ == (State {
                regs: add_regs(old(self)@.regs, x as int, y as int),
                ..old(self)@
            }),
    {
        let vx = self.registers[x as usize];
        let vy = self.registers[y as usize];
        let sum: u16 = vx as u16 + vy as u16;
        let val: u8 = if sum > 255 {
            (sum - 256) as u8
        } else {
            sum as u8
        };
        self.registers[x as usize] = val;
        self.registers[FLAG_REG] = if sum > 255 {
            1
        } else {
            0
        };
    }

    /// SUB_REG: the flag register is overwritten first (1 iff register
    /// `x` strictly exceeds register `y` before the subtraction), then
    /// register `x` becomes `x - y`, wrapping modulo 256 on underflow.
    fn sub_xy(&mut self, x: u8, y: u8)
        requires
            old(self).wf(),
            x < 16,
            y < 16,
        ensures
            final(self)@ == (State {
                regs: sub_regs(old(self)@.regs, x as int, y as int),
                ..old(self)@
            }),
    {
        let vx = self.registers[x as usize];
        let vy = self.registers[y as usize];
        self.registers[FLAG_REG] = if vx > vy {
            1
        } else {
            0
        };
        let val: u8 = if vx >= vy {
            vx - vy
        } else {
            ((vx as u16 + 256) - vy as u16) as u8
        };
        self.registers[x as usize] = val;
    }

    /// SUBN_REG: the flag register is overwritten first (1 iff register
    /// `y` strictly exceeds register `x`), then register `x` becomes
    /// `y - x`, wrapping modulo 256 on underflow.
    fn sub_yx(&mut self, x: u8, y: u8)
        requires
            old(self).wf(),
            x < 16,
            y < 16,
        ensures
            final(self)@ == (State {
                regs: subn_regs(old(self)@.regs, x as int, y as int),
                ..old(self)@
            }),
    {
        let vx = self.registers[x as usize];
        let vy = self.registers[y as usize];
        self.registers[FLAG_REG] = if vy > vx {
            1
        } else {
            0
        };
        let val: u8 = if vy >= vx {
            vy - vx
        } else {
            ((vy as u16 + 256) - vx as u16) as u8
        };
        self.registers[x as usize] = val;
    }

    /// SHR: the flag register is overwritten with the pre-shift
    /// least-significant bit of register `x`, then register `x` is
    /// shifted right by one.
    fn shr(&mut self, x: u8)
        requires
            old(self).wf(),
            x < 16,
        ensures
            final(self)@ == (State { regs: shr_regs(old(self)@.regs, x as int), ..old(self)@ }),
    {
        let vx = self.registers[x as usize];
        self.registers[FLAG_REG] = vx & 1;
        self.registers[x as usize] = vx >> 1u8;
    }

    /// SHL: the flag register is overwritten with the pre-shift
    /// most-significant bit of register `x`, then register `x` is shifted
    /// left by one, keeping the low byte only.
    fn shl(&mut self, x: u8)
        requires
            old(self).wf(),
            x < 16,
        ensures
            final(self)@ == (State { regs: shl_regs(old(self)@.regs, x as int), ..old(self)@ }),
    {
        let vx = self.registers[x as usize];
        self.registers[FLAG_REG] = vx >> 7u8;
        self.registers[x as usize] = vx << 1u8;
    }

    /// SET_INDEX: the index register is overwritten with `nnn`.
    fn set_i_nnn(&mut self, nnn: u16)
        ensures
            final(self)@ == (State { index: nnn, ..old(self)@ }),
    {
        self.register_i = nnn;
    }

    /// JUMP_OFFSET: the program counter is overwritten with register 0
    /// plus `nnn`.
    fn add_reg0_nnn(&mut self, nnn: u16)
        requires
            old(self).wf(),
            nnn < 0x1000,
        ensures
            final(self)@ == (State { pc: old(self)@.regs[0] + nnn, ..old(self)@ }),
    {
        let target = self.registers[0] as u16 + nnn;
        self.prog_counter = target as usize;
    }

    /// RANDOM_AND: register `x` is overwritten with a random byte from
    /// [0, 255) masked by the immediate `kk`; the byte drawn is returned
    /// as a ghost witness.
    fn rand_byte_and_xkk(&mut self, x: u8, kk: u8) -> (b: Ghost<u8>)
        requires
            old(self).wf(),
            x < 16,
        ensures
            b@ < 255,
            final(self)@ == (State {
                regs: old(self)@.regs.update(x as int, b@ & kk),
                ..old(self)@
            }),
    {
        let rb = random_below_255();
        self.registers[x as usize] = rb & kk;
        Ghost(rb)
    }

    /// One fetch-decode-execute step: fetches the instruction at the
    /// program counter, advances the counter past it, and dispatches on
    /// the decoded fields.  The outcome, together with the state the
    /// machine is left in, is exactly one `step_spec` transition for some
    /// byte the random generator could have drawn.
    pub fn step(&mut self) -> (r: Result<Status, Fault>)
        requires
            old(self).wf(),
        ensures
            final(self).wf(),
            exists|b: u8|
                b < 255 && step_spec(old(self)@, b) == step_res_of(r, final(self)@),
    {
        let ghost s0 = self@;
        let p = self.prog_counter;
        if p + 2 > MEM_SIZE {
            assert(step_spec(s0, 0) == StepRes::Fault(Fault::OutOfBoundsFetch, s0));
            return Err(Fault::OutOfBoundsFetch);
        }
        let opcode = self.read_op_code();
        self.prog_counter = p + 2;
        let (c, x, y, d) = decode_nibbles(opcode);
        let nnn = decode_nnn(opcode);
        let kk = decode_kk(opcode);
        let ghost mut wb: u8 = 0;
        let r: Result<Status, Fault> = match (c, x, y, d) {
            (0, 0, 0, 0) => Ok(Status::Halted),
            (0, 0, 0xE, 0xE) => match self.rtrn() {
                Ok(()) => Ok(Status::Running),
                Err(f) => Err(f),
            },
            (0x1, _, _, _) => {
                self.jump(nnn);
                Ok(Status::Running)
            },
            (0x2, _, _, _) => match self.call(nnn) {
                Ok(()) => Ok(Status::Running),
                Err(f) => Err(f),
            },
            (0x3, _, _, _) => {
                self.skip_e(x, kk);
                Ok(Status::Running)
            },
            (0x4, _, _, _) => {
                self.skip_ne(x, kk);
                Ok(Status::Running)
            },
            (0x5, _, _, 0x0) => {
                self.skip_e_xy(x, y);
                Ok(Status::Running)
            },
            (0x6, _, _, _) => {
                self.ld_xkk(x, kk);
                Ok(Status::Running)
            },
            (0x7, _, _, _) => {
                self.add_xkk(x, kk);
                Ok(Status::Running)
            },
            (0x8, _, _, 0x0) => {
                self.set_xy(x, y);
                Ok(Status::Running)
            },
            (0x8, _, _, 0x1) => {
                self.or_xy(x, y);
                Ok(Status::Running)
            },
            (0x8, _, _, 0x2) => {
                self.and_xy(x, y);
                Ok(Status::Running)
            },
            (0x8, _, _, 0x3) => {
                self.xor_xy(x, y);
                Ok(Status::Running)
            },
            (0x8, _, _, 0x4) => {
                self.add_xy(x, y);
                Ok(Status::Running)
            },
            (0x8, _, _, 0x5) => {
                self.sub_xy(x, y);
                Ok(Status::Running)
            },
            (0x8, _, _, 0x6) => {
                self.shr(x);
                Ok(Status::Running)
            },
            (0x8, _, _, 0x7) => {
                self.sub_yx(x, y);
                Ok(Status::Running)
            },
            (0x8, _, _, 0xE) => {
                self.shl(x);
                Ok(Status::Running)
            },
            (0x9, _, _, _) => {
                self.sne_xy(x, y);
                Ok(Status::Running)
            },
            (0xA, _, _, _) => {
                self.set_i_nnn(nnn);
                Ok(Status::Running)
            },
            (0xB, _, _, _) => {
                self.add_reg0_nnn(nnn);
                Ok(Status::Running)
            },
            (0xC, _, _, _) => {
                let b = self.rand_byte_and_xkk(x, kk);
                proof {
                    wb = b@;
                }
                Ok(Status::Running)
            },
            (0xD, _, _, _) => Err(Fault::NotImplemented),
            (0xE, _, 0x9, 0xE) => Err(Fault::NotImplemented),
            (0xE, _, 0xA, 0x1) => Err(Fault::NotImplemented),
            (0xF, _, 0x0, 0x7) => Err(Fault::NotImplemented),
            (0xF, _, 0x0, 0xA) => Err(Fault::NotImplemented),
            (0xF, _, 0x1, 0x5) => Err(Fault::NotImplemented),
            (0xF, _, 0x1, 0x8) => Err(Fault::NotImplemented),
            (0xF, _, 0x1, 0xE) => Err(Fault::NotImplemented),
            (0xF, _, 0x2, 0x9) => Err(Fault::NotImplemented),
            (0xF, _, 0x3, 0x3) => Err(Fault::NotImplemented),
            (0xF, _, 0x5, 0x5) => Err(Fault::NotImplemented),
            (0xF, _, 0x6, 0x5) => Err(Fault::NotImplemented),
            _ => Err(Fault::UnknownOpcode),
        };
        proof {
            assert(step_spec(s0, wb) == step_res_of(r, self@));
        }
        r
    }

    /// The fetch-decode-execute loop: steps until the halt encoding
    /// terminates the run normally (`Ok(Halted)`), a fatal condition
    /// aborts it (`Err`), or `max_steps` instructions have been executed
    /// with the machine still running (`Ok(Running)`).  Either way, the
    /// final state is reached from the initial one by running the
    /// abstract machine along some trace of bytes the random generator
    /// could have drawn — one byte per executed step.
    #[verifier::loop_isolation(false)]
    pub fn run(&mut self, max_steps: u64) -> (r: Result<Status, Fault>)
        requires
            old(self).wf(),
        ensures
            final(self).wf(),
            r == Ok::<Status, Fault>(Status::Halted) ==> exists|t: Seq<u8>|
                trace_ok(t) && run_spec(old(self)@, t) == RunRes::Halted(final(self)@),
            r == Ok::<Status, Fault>(Status::Running) ==> exists|t: Seq<u8>|
                trace_ok(t) && t.len() == max_steps && run_spec(old(self)@, t)
                    == RunRes::Running(final(self)@),
            r matches Err(f) ==> exists|t: Seq<u8>|
                trace_ok(t) && run_spec(old(self)@, t) == RunRes::Faulted(f, final(self)@),
    {
        let ghost s0 = self@;
        let ghost mut trace: Seq<u8> = Seq::empty();
        let mut steps: u64 = 0;
        while steps < max_steps
            invariant
                self.wf(),
                steps <= max_steps,
                trace_ok(trace),
                trace.len() == steps,
                run_spec(s0, trace) == RunRes::Running(self@),
            decreases max_steps - steps,
        {
            let ghost pre = self@;
            let ghost old_trace = trace;
            let outcome = self.step();
            proof {
                let b = choose|b: u8|
                    b < 255 && step_spec(pre, b) == step_res_of(outcome, self@);
                lemma_run_spec_snoc(s0, old_trace, b);
                trace = old_trace.push(b);
                assert(trace_ok(trace));
            }
            steps = steps + 1;
            match outcome {
                Ok(Status::Running) => {
                },
                Ok(Status::Halted) => {
                    proof {
                        assert(run_spec(s0, trace) == RunRes::Halted(self@));
                    }
                    return Ok(Status::Halted);
                },
                Err(f) => {
                    proof {
                        assert(run_spec(s0, trace) == RunRes::Faulted(f, self@));
                    }
                    return Err(f);
                },
            }
        }
        Ok(Status::Running)
    }
}

} // verus!
