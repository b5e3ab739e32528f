//! A verified interpreter for a small fixed-width instruction set in the
//! CHIP-8 style: sixteen 8-bit registers, a 16-bit index register, 4096
//! bytes of memory, and a bounded call stack of sixteen return addresses.
//!
//! The behaviour of the interpreter is pinned down by an abstract machine
//! (`machine::step_spec` / `machine::run_spec`): every executable function
//! is proved to follow it exactly, including the carry/borrow/shift flag
//! side effects and the fatal faults (stack overflow and underflow,
//! out-of-bounds fetch, unknown and unimplemented opcodes).

pub mod cpu;
pub mod decode;
pub mod laws;
pub mod machine;
