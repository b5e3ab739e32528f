use chip8::cpu::Cpu;
use chip8::machine::Fault;
use chip8::machine::Status;

const START: usize = 0x200;
const FUEL: u64 = 1000;

/// A fresh machine with the given registers preset and the given program
/// bytes written at the conventional start address.
fn loaded(regs: &[(usize, u8)], prog: &[u8]) -> Cpu {
    let mut cpu = Cpu::new();
    for &(i, v) in regs {
        cpu.registers[i] = v;
    }
    for (i, &b) in prog.iter().enumerate() {
        cpu.memory[START + i] = b;
    }
    cpu
}

#[test]
fn new_initial_state() {
    let cpu = Cpu::new();
    assert_eq!(cpu.prog_counter, 0x200);
    assert_eq!(cpu.stack_pointer, 0);
    assert_eq!(cpu.register_i, 0);
    assert_eq!(cpu.registers, vec![0u8; 16]);
    assert_eq!(cpu.memory.len(), 4096);
    assert_eq!(cpu.stack, vec![0u16; 16]);
}

#[test]
fn halt_stops_the_run() {
    let mut cpu = loaded(&[], &[0x00, 0x00]);
    assert_eq!(cpu.run(FUEL), Ok(Status::Halted));
    assert_eq!(cpu.prog_counter, 0x202);
}

#[test]
fn step_reports_halt() {
    let mut cpu = loaded(&[], &[0x00, 0x00]);
    assert_eq!(cpu.step(), Ok(Status::Halted));
}

#[test]
fn fuel_runs_out_on_a_tight_loop() {
    // JUMP back to the start address, forever.
    let mut cpu = loaded(&[], &[0x12, 0x00]);
    assert_eq!(cpu.run(10), Ok(Status::Running));
}

#[test]
fn add_reg_without_carry() {
    let mut cpu = loaded(&[(0, 5), (1, 10)], &[0x80, 0x14, 0x00, 0x00]);
    assert_eq!(cpu.run(FUEL), Ok(Status::Halted));
    assert_eq!(cpu.registers[0], 15);
    assert_eq!(cpu.registers[0xF], 0);
}

#[test]
fn add_reg_with_carry() {
    let mut cpu = loaded(&[(0, 250), (1, 10)], &[0x80, 0x14, 0x00, 0x00]);
    assert_eq!(cpu.run(FUEL), Ok(Status::Halted));
    assert_eq!(cpu.registers[0], 4);
    assert_eq!(cpu.registers[0xF], 1);
}

#[test]
fn add_imm_wraps_and_leaves_the_flag_alone() {
    // Preset the flag register, then ADD_IMM 255 to register 0: the sum
    // wraps but the flag keeps its preset value.
    let mut cpu = loaded(&[(0, 10), (0xF, 7)], &[0x70, 0xFF, 0x00, 0x00]);
    assert_eq!(cpu.run(FUEL), Ok(Status::Halted));
    assert_eq!(cpu.registers[0], 9);
    assert_eq!(cpu.registers[0xF], 7);
}

#[test]
fn load_imm() {
    let mut cpu = loaded(&[], &[0x60, 0x2A, 0x00, 0x00]);
    assert_eq!(cpu.run(FUEL), Ok(Status::Halted));
    assert_eq!(cpu.registers[0], 42);
}

#[test]
fn mov_copies_the_register() {
    let mut cpu = loaded(&[(1, 9)], &[0x80, 0x10, 0x00, 0x00]);
    assert_eq!(cpu.run(FUEL), Ok(Status::Halted));
    assert_eq!(cpu.registers[0], 9);
    assert_eq!(cpu.registers[1], 9);
}

#[test]
fn or_registers() {
    let mut cpu = loaded(&[(0, 0b1010), (1, 0b0110)], &[0x80, 0x11, 0x00, 0x00]);
    assert_eq!(cpu.run(FUEL), Ok(Status::Halted));
    assert_eq!(cpu.registers[0], 0b1110);
}

#[test]
fn and_registers() {
    let mut cpu = loaded(&[(0, 0b1010), (1, 0b0110)], &[0x80, 0x12, 0x00, 0x00]);
    assert_eq!(cpu.run(FUEL), Ok(Status::Halted));
    assert_eq!(cpu.registers[0], 0b0010);
}

#[test]
fn xor_registers() {
    let mut cpu = loaded(&[(0, 0b1010), (1, 0b0110)], &[0x80, 0x13, 0x00, 0x00]);
    assert_eq!(cpu.run(FUEL), Ok(Status::Halted));
    assert_eq!(cpu.registers[0], 0b1100);
}

#[test]
fn sub_reg_sets_flag_when_no_borrow() {
    let mut cpu = loaded(&[(0, 10), (1, 3)], &[0x80, 0x15, 0x00, 0x00]);
    assert_eq!(cpu.run(FUEL), Ok(Status::Halted));
    assert_eq!(cpu.registers[0], 7);
    assert_eq!(cpu.registers[0xF], 1);
}

#[test]
fn sub_reg_wraps_and_clears_flag_on_borrow() {
    let mut cpu = loaded(&[(0, 3), (1, 10)], &[0x80, 0x15, 0x00, 0x00]);
    assert_eq!(cpu.run(FUEL), Ok(Status::Halted));
    assert_eq!(cpu.registers[0], 249);
    assert_eq!(cpu.registers[0xF], 0);
}

#[test]
fn sub_reg_equal_values_clear_the_flag() {
    let mut cpu = loaded(&[(0, 7), (1, 7)], &[0x80, 0x15, 0x00, 0x00]);
    assert_eq!(cpu.run(FUEL), Ok(Status::Halted));
    assert_eq!(cpu.registers[0], 0);
    assert_eq!(cpu.registers[0xF], 0);
}

#[test]
fn subn_reg_subtracts_the_other_way() {
    let mut cpu = loaded(&[(0, 3), (1, 10)], &[0x80, 0x17, 0x00, 0x00]);
    assert_eq!(cpu.run(FUEL), Ok(Status::Halted));
    assert_eq!(cpu.registers[0], 7);
    assert_eq!(cpu.registers[0xF], 1);
}

#[test]
fn shr_flag_is_the_bit_before_the_shift() {
    // 5 = 0b101: after the shift register 0 holds 0b10 whose low bit is
    // 0, but the flag must hold the pre-shift low bit, 1.
    let mut cpu = loaded(&[(0, 5)], &[0x80, 0x16, 0x00, 0x00]);
    assert_eq!(cpu.run(FUEL), Ok(Status::Halted));
    assert_eq!(cpu.registers[0], 2);
    assert_eq!(cpu.registers[0xF], 1);
}

#[test]
fn shl_flag_is_the_high_bit_before_the_shift() {
    let mut cpu = loaded(&[(0, 0x81)], &[0x80, 0x1E, 0x00, 0x00]);
    assert_eq!(cpu.run(FUEL), Ok(Status::Halted));
    assert_eq!(cpu.registers[0], 0x02);
    assert_eq!(cpu.registers[0xF], 1);
}

#[test]
fn skip_eq_taken() {
    // SKIP_EQ jumps over the LOAD_IMM, so register 0 keeps its value.
    let mut cpu = loaded(&[(0, 7)], &[0x30, 0x07, 0x60, 0x01, 0x00, 0x00]);
    assert_eq!(cpu.run(FUEL), Ok(Status::Halted));
    assert_eq!(cpu.registers[0], 7);
}

#[test]
fn skip_eq_not_taken() {
    let mut cpu = loaded(&[(0, 8)], &[0x30, 0x07, 0x60, 0x01, 0x00, 0x00]);
    assert_eq!(cpu.run(FUEL), Ok(Status::Halted));
    assert_eq!(cpu.registers[0], 1);
}

#[test]
fn skip_neq_taken() {
    let mut cpu = loaded(&[(0, 8)], &[0x40, 0x07, 0x60, 0x01, 0x00, 0x00]);
    assert_eq!(cpu.run(FUEL), Ok(Status::Halted));
    assert_eq!(cpu.registers[0], 8);
}

#[test]
fn skip_neq_not_taken() {
    let mut cpu = loaded(&[(0, 7)], &[0x40, 0x07, 0x60, 0x01, 0x00, 0x00]);
    assert_eq!(cpu.run(FUEL), Ok(Status::Halted));
    assert_eq!(cpu.registers[0], 1);
}

#[test]
fn skip_eq_reg_taken() {
    let mut cpu = loaded(&[(0, 7), (1, 7)], &[0x50, 0x10, 0x60, 0x01, 0x00, 0x00]);
    assert_eq!(cpu.run(FUEL), Ok(Status::Halted));
    assert_eq!(cpu.registers[0], 7);
}

#[test]
fn skip_neq_reg_taken() {
    let mut cpu = loaded(&[(0, 7), (1, 8)], &[0x90, 0x10, 0x60, 0x01, 0x00, 0x00]);
    assert_eq!(cpu.run(FUEL), Ok(Status::Halted));
    assert_eq!(cpu.registers[0], 7);
}

#[test]
fn skip_neq_reg_not_taken() {
    let mut cpu = loaded(&[(0, 7), (1, 7)], &[0x90, 0x10, 0x60, 0x01, 0x00, 0x00]);
    assert_eq!(cpu.run(FUEL), Ok(Status::Halted));
    assert_eq!(cpu.registers[0], 1);
}

#[test]
fn jump_overwrites_the_program_counter() {
    // JUMP over a LOAD_IMM at 0x202 to a LOAD_IMM at 0x206.
    let mut cpu = loaded(&[], &[0x12, 0x06, 0x60, 0x01, 0x00, 0x00, 0x60, 0x05, 0x00, 0x00]);
    assert_eq!(cpu.run(FUEL), Ok(Status::Halted));
    assert_eq!(cpu.registers[0], 5);
}

#[test]
fn jump_offset_adds_register_zero() {
    // JUMP_OFFSET 0x200 with register 0 = 6 lands on the LOAD_IMM at
    // 0x206.
    let mut cpu = loaded(
        &[(0, 6)],
        &[0xB2, 0x00, 0x60, 0x01, 0x00, 0x00, 0x61, 0x09, 0x00, 0x00],
    );
    assert_eq!(cpu.run(FUEL), Ok(Status::Halted));
    assert_eq!(cpu.registers[1], 9);
}

#[test]
fn set_index_register() {
    let mut cpu = loaded(&[], &[0xA1, 0x23, 0x00, 0x00]);
    assert_eq!(cpu.run(FUEL), Ok(Status::Halted));
    assert_eq!(cpu.register_i, 0x123);
}

#[test]
fn random_and_with_zero_mask_gives_zero() {
    let mut cpu = loaded(&[(0, 0xAB)], &[0xC0, 0x00, 0x00, 0x00]);
    assert_eq!(cpu.run(FUEL), Ok(Status::Halted));
    assert_eq!(cpu.registers[0], 0);
}

#[test]
fn random_and_stays_within_the_mask() {
    let mut cpu = loaded(&[], &[0xC0, 0x0F, 0x00, 0x00]);
    assert_eq!(cpu.run(FUEL), Ok(Status::Halted));
    assert_eq!(cpu.registers[0] & !0x0F, 0);
}

#[test]
fn random_and_with_full_mask_stays_below_255() {
    // The generator draws from [0, 255), so even an all-ones mask can
    // never leave 255 in the register.
    let mut cpu = loaded(&[(0, 255)], &[0xC0, 0xFF, 0x00, 0x00]);
    assert_eq!(cpu.run(FUEL), Ok(Status::Halted));
    assert_ne!(cpu.registers[0], 255);
}

#[test]
fn call_and_return_round_trip() {
    // CALL 0x100; at 0x100 two ADD_REG instructions then RETURN; the
    // halt bytes sit right after the CALL.
    let mut cpu = loaded(&[(0, 5), (1, 10)], &[0x21, 0x00, 0x00, 0x00]);
    cpu.memory[0x100] = 0x80;
    cpu.memory[0x101] = 0x14;
    cpu.memory[0x102] = 0x80;
    cpu.memory[0x103] = 0x14;
    cpu.memory[0x104] = 0x00;
    cpu.memory[0x105] = 0xEE;
    assert_eq!(cpu.run(FUEL), Ok(Status::Halted));
    assert_eq!(cpu.registers[0], 25);
    assert_eq!(cpu.registers[0xF], 0);
    // The RETURN came back to the halt bytes just after the CALL.
    assert_eq!(cpu.prog_counter, 0x204);
    assert_eq!(cpu.stack_pointer, 0);
}

#[test]
fn sixteen_calls_fill_the_stack() {
    // Sixteen CALL instructions in a row, each to the next address, then
    // the halt encoding.
    let mut cpu = Cpu::new();
    for i in 0..16usize {
        let addr = START + 2 * i;
        let target = addr + 2;
        cpu.memory[addr] = 0x20 | ((target >> 8) as u8);
        cpu.memory[addr + 1] = (target & 0xFF) as u8;
    }
    assert_eq!(cpu.run(FUEL), Ok(Status::Halted));
    assert_eq!(cpu.stack_pointer, 16);
}

#[test]
fn seventeenth_call_overflows_the_stack() {
    // CALL back to the start address, forever: sixteen succeed, the
    // seventeenth faults.
    let mut cpu = loaded(&[], &[0x22, 0x00]);
    assert_eq!(cpu.run(FUEL), Err(Fault::StackOverflow));
    assert_eq!(cpu.stack_pointer, 16);
}

#[test]
fn return_on_an_empty_stack_underflows() {
    let mut cpu = loaded(&[], &[0x00, 0xEE]);
    assert_eq!(cpu.run(FUEL), Err(Fault::StackUnderflow));
}

#[test]
fn fetch_past_the_end_of_memory_faults() {
    // JUMP to 0xFFF: the next fetch would need bytes 0xFFF and 0x1000.
    let mut cpu = loaded(&[], &[0x1F, 0xFF]);
    assert_eq!(cpu.run(FUEL), Err(Fault::OutOfBoundsFetch));
}

#[test]
fn unknown_opcode_faults() {
    let mut cpu = loaded(&[], &[0x00, 0x01]);
    assert_eq!(cpu.run(FUEL), Err(Fault::UnknownOpcode));
}

#[test]
fn skip_eq_reg_with_nonzero_sub_opcode_is_unknown() {
    let mut cpu = loaded(&[], &[0x50, 0x11]);
    assert_eq!(cpu.run(FUEL), Err(Fault::UnknownOpcode));
}

#[test]
fn draw_sprite_is_not_implemented() {
    let mut cpu = loaded(&[], &[0xD0, 0x05]);
    assert_eq!(cpu.run(FUEL), Err(Fault::NotImplemented));
}

#[test]
fn key_press_query_is_not_implemented() {
    let mut cpu = loaded(&[], &[0xE0, 0x9E]);
    assert_eq!(cpu.run(FUEL), Err(Fault::NotImplemented));
}

#[test]
fn delay_timer_read_is_not_implemented() {
    let mut cpu = loaded(&[], &[0xF0, 0x07]);
    assert_eq!(cpu.run(FUEL), Err(Fault::NotImplemented));
}

#[test]
fn register_block_store_is_not_implemented() {
    let mut cpu = loaded(&[], &[0xF0, 0x55]);
    assert_eq!(cpu.run(FUEL), Err(Fault::NotImplemented));
}

#[test]
fn fault_leaves_the_later_instructions_unexecuted() {
    // The unknown opcode aborts the run before the LOAD_IMM after it.
    let mut cpu = loaded(&[], &[0x00, 0x01, 0x60, 0x63]);
    assert_eq!(cpu.run(FUEL), Err(Fault::UnknownOpcode));
    assert_eq!(cpu.registers[0], 0);
}
