//! Executor scenarios: the flag conventions of arithmetic, subtraction
//! and shifts, binary-coded-decimal store, register dump and load, the
//! call/return round trip, key handling, the index register, and every
//! fault an instruction can raise.

use chip8::instr::Instruction;
use chip8::machine::{Chip8, ConfigError, Fault, VmError};
use chip8::{FONT_START, MEMORY_SIZE, PROGRAM_START, STACK_DEPTH};

#[test]
fn add_with_overflow_sets_flag() {
    let mut c8 = Chip8::new();
    c8.registers[1] = 0xFF;
    c8.registers[2] = 0x01;
    assert_eq!(c8.execute(Instruction::AddRegisterToRegister(1, 2)), Ok(()));
    assert_eq!(c8.registers[1], 0x00);
    assert_eq!(c8.registers[15], 1);
}

#[test]
fn add_without_overflow_clears_flag() {
    let mut c8 = Chip8::new();
    c8.registers[1] = 0x10;
    c8.registers[2] = 0x20;
    c8.registers[15] = 1;
    assert_eq!(c8.execute(Instruction::AddRegisterToRegister(1, 2)), Ok(()));
    assert_eq!(c8.registers[1], 0x30);
    assert_eq!(c8.registers[15], 0);
}

#[test]
fn sub_without_borrow_sets_flag() {
    let mut c8 = Chip8::new();
    c8.registers[1] = 0x05;
    c8.registers[2] = 0x03;
    assert_eq!(c8.execute(Instruction::SubRegisterToRegister85(1, 2)), Ok(()));
    assert_eq!(c8.registers[1], 0x02);
    assert_eq!(c8.registers[15], 1);
}

#[test]
fn sub_with_borrow_clears_flag() {
    let mut c8 = Chip8::new();
    c8.registers[1] = 0x03;
    c8.registers[2] = 0x05;
    assert_eq!(c8.execute(Instruction::SubRegisterToRegister85(1, 2)), Ok(()));
    assert_eq!(c8.registers[1], 0xFE);
    assert_eq!(c8.registers[15], 0);
}

#[test]
fn sub_reversed_operand_order() {
    let mut c8 = Chip8::new();
    c8.registers[1] = 0x03;
    c8.registers[2] = 0x05;
    assert_eq!(c8.execute(Instruction::SubRegisterToRegister87(1, 2)), Ok(()));
    assert_eq!(c8.registers[1], 0x02);
    assert_eq!(c8.registers[15], 1);
    let mut c8 = Chip8::new();
    c8.registers[1] = 0x05;
    c8.registers[2] = 0x03;
    assert_eq!(c8.execute(Instruction::SubRegisterToRegister87(1, 2)), Ok(()));
    assert_eq!(c8.registers[1], 0xFE);
    assert_eq!(c8.registers[15], 0);
}

#[test]
fn shift_left_flag_is_high_bit() {
    let mut c8 = Chip8::new();
    c8.registers[3] = 0b1000_0001;
    assert_eq!(c8.execute(Instruction::ShiftLeft(3)), Ok(()));
    assert_eq!(c8.registers[3], 0b0000_0010);
    assert_eq!(c8.registers[15], 1);
}

#[test]
fn shift_right_flag_is_low_bit() {
    let mut c8 = Chip8::new();
    c8.registers[3] = 0b0000_0011;
    assert_eq!(c8.execute(Instruction::ShiftRight(3)), Ok(()));
    assert_eq!(c8.registers[3], 0b0000_0001);
    assert_eq!(c8.registers[15], 1);
}

#[test]
fn bitwise_register_instructions() {
    let mut c8 = Chip8::new();
    c8.registers[1] = 0b1100;
    c8.registers[2] = 0b1010;
    assert_eq!(c8.execute(Instruction::SetRegisterOR(1, 2)), Ok(()));
    assert_eq!(c8.registers[1], 0b1110);
    c8.registers[1] = 0b1100;
    assert_eq!(c8.execute(Instruction::SetRegisterAND(1, 2)), Ok(()));
    assert_eq!(c8.registers[1], 0b1000);
    c8.registers[1] = 0b1100;
    assert_eq!(c8.execute(Instruction::SetRegisterXOR(1, 2)), Ok(()));
    assert_eq!(c8.registers[1], 0b0110);
}

#[test]
fn add_immediate_wraps_without_flag() {
    let mut c8 = Chip8::new();
    c8.registers[4] = 0xFF;
    c8.registers[15] = 0;
    assert_eq!(c8.execute(Instruction::AddRegisterValue(4, 0x02)), Ok(()));
    assert_eq!(c8.registers[4], 0x01);
    // the immediate add never writes the flag register
    assert_eq!(c8.registers[15], 0);
}

#[test]
fn bcd_decomposes_255() {
    let mut c8 = Chip8::new();
    c8.registers[6] = 0xFF;
    c8.index = 0x400;
    assert_eq!(c8.execute(Instruction::BCD(6)), Ok(()));
    assert_eq!(c8.memory[0x400], 2);
    assert_eq!(c8.memory[0x401], 5);
    assert_eq!(c8.memory[0x402], 5);
}

#[test]
fn bcd_decomposes_small_value() {
    let mut c8 = Chip8::new();
    c8.registers[6] = 7;
    c8.index = 0x400;
    assert_eq!(c8.execute(Instruction::BCD(6)), Ok(()));
    assert_eq!(c8.memory[0x400], 0);
    assert_eq!(c8.memory[0x401], 0);
    assert_eq!(c8.memory[0x402], 7);
}

#[test]
fn call_then_return_resumes_after_call() {
    let mut c8 = Chip8::new();
    assert_eq!(c8.pc, 0x200);
    assert_eq!(c8.execute(Instruction::Subroutine(0x300)), Ok(()));
    assert_eq!(c8.pc, 0x300);
    assert_eq!(c8.call_stack, vec![0x202]);
    assert_eq!(c8.execute(Instruction::Return), Ok(()));
    assert_eq!(c8.pc, 0x202);
    assert!(c8.call_stack.is_empty());
}

#[test]
fn delay_timer_never_underflows() {
    let mut c8 = Chip8::new();
    c8.delay_timer = 0;
    c8.update_delay_timer();
    assert_eq!(c8.delay_timer, 0);
    c8.delay_timer = 5;
    c8.update_delay_timer();
    assert_eq!(c8.delay_timer, 4);
}

#[test]
fn sound_timer_never_underflows() {
    let mut c8 = Chip8::new();
    c8.sound_timer = 0;
    c8.update_sound_timer();
    assert_eq!(c8.sound_timer, 0);
    c8.sound_timer = 1;
    c8.update_sound_timer();
    assert_eq!(c8.sound_timer, 0);
}

#[test]
fn key_wait_stalls_until_key_pressed() {
    let mut c8 = Chip8::new();
    c8.registers[2] = 0xAA;
    for _ in 0..3 {
        assert_eq!(c8.execute(Instruction::GetKeyPress(2)), Ok(()));
        assert_eq!(c8.pc, 0x200);
        assert_eq!(c8.registers[2], 0xAA);
    }
    c8.set_key(0x5, true);
    assert_eq!(c8.execute(Instruction::GetKeyPress(2)), Ok(()));
    assert_eq!(c8.pc, 0x202);
    assert_eq!(c8.registers[2], 0x5);
}

#[test]
fn key_wait_picks_lowest_pressed_key() {
    let mut c8 = Chip8::new();
    c8.set_key(0x7, true);
    c8.set_key(0x3, true);
    assert_eq!(c8.execute(Instruction::GetKeyPress(0)), Ok(()));
    assert_eq!(c8.registers[0], 0x3);
}

#[test]
fn skip_if_key_consults_keypad() {
    let mut c8 = Chip8::new();
    c8.registers[1] = 0x4;
    assert_eq!(c8.execute(Instruction::SkipIfKey(1)), Ok(()));
    assert_eq!(c8.pc, 0x202);
    c8.set_key(0x4, true);
    assert_eq!(c8.execute(Instruction::SkipIfKey(1)), Ok(()));
    assert_eq!(c8.pc, 0x206);
}

#[test]
fn skip_if_not_key_consults_keypad() {
    let mut c8 = Chip8::new();
    c8.registers[1] = 0x4;
    assert_eq!(c8.execute(Instruction::SkipIfNotKey(1)), Ok(()));
    assert_eq!(c8.pc, 0x204);
    c8.set_key(0x4, true);
    assert_eq!(c8.execute(Instruction::SkipIfNotKey(1)), Ok(()));
    assert_eq!(c8.pc, 0x206);
}

#[test]
fn register_compare_skips() {
    let mut c8 = Chip8::new();
    c8.registers[1] = 9;
    c8.registers[2] = 9;
    assert_eq!(c8.execute(Instruction::SkipIfRegisterEqualValue(1, 9)), Ok(()));
    assert_eq!(c8.pc, 0x204);
    assert_eq!(c8.execute(Instruction::SkipIfRegisterNotEqualValue(1, 9)), Ok(()));
    assert_eq!(c8.pc, 0x206);
    assert_eq!(c8.execute(Instruction::SkipIfRegisterEqualRegister(1, 2)), Ok(()));
    assert_eq!(c8.pc, 0x20A);
    assert_eq!(c8.execute(Instruction::SkipIfRegisterNotEqualRegister(1, 2)), Ok(()));
    assert_eq!(c8.pc, 0x20C);
}

#[test]
fn jumps_assign_program_counter() {
    let mut c8 = Chip8::new();
    assert_eq!(c8.execute(Instruction::JumpTo(0x456)), Ok(()));
    assert_eq!(c8.pc, 0x456);
    c8.registers[0] = 0x05;
    assert_eq!(c8.execute(Instruction::JumpRelV0(0x300)), Ok(()));
    assert_eq!(c8.pc, 0x305);
}

#[test]
fn register_moves() {
    let mut c8 = Chip8::new();
    assert_eq!(c8.execute(Instruction::SetRegisterToValue(0xA, 0x3F)), Ok(()));
    assert_eq!(c8.registers[0xA], 0x3F);
    assert_eq!(c8.execute(Instruction::SetRegister(0xB, 0xA)), Ok(()));
    assert_eq!(c8.registers[0xB], 0x3F);
    assert_eq!(c8.execute(Instruction::SetToDelayTimer(0xC)), Ok(()));
    assert_eq!(c8.registers[0xC], 0);
    assert_eq!(c8.execute(Instruction::SetDelayTimer(0xA)), Ok(()));
    assert_eq!(c8.delay_timer, 0x3F);
    assert_eq!(c8.execute(Instruction::SetSoundTimer(0xA)), Ok(()));
    assert_eq!(c8.sound_timer, 0x3F);
}

#[test]
fn index_register_instructions() {
    let mut c8 = Chip8::new();
    assert_eq!(c8.execute(Instruction::SetIndex(0x123)), Ok(()));
    assert_eq!(c8.index, 0x123);
    c8.registers[5] = 0x10;
    assert_eq!(c8.execute(Instruction::AddToIndexRegister(5)), Ok(()));
    assert_eq!(c8.index, 0x133);
    assert_eq!(c8.registers[15], 0);
    c8.registers[9] = 0x0B;
    assert_eq!(c8.execute(Instruction::SetIndexToSpriteAddr(9)), Ok(()));
    assert_eq!(c8.index, 0x50 + 5 * 0x0B);
}

#[test]
fn add_to_index_past_memory_bound_sets_flag() {
    let mut c8 = Chip8::new();
    c8.index = 0xFF0;
    c8.registers[5] = 0x20;
    assert_eq!(c8.execute(Instruction::AddToIndexRegister(5)), Ok(()));
    assert_eq!(c8.index, 0x1010);
    assert_eq!(c8.registers[15], 1);
}

#[test]
fn add_to_index_flag_extension_can_be_disabled() {
    let mut c8 = Chip8::new();
    c8.index_add_sets_flag = false;
    c8.index = 0xFF0;
    c8.registers[5] = 0x20;
    c8.registers[15] = 0xAA;
    assert_eq!(c8.execute(Instruction::AddToIndexRegister(5)), Ok(()));
    assert_eq!(c8.index, 0x1010);
    assert_eq!(c8.registers[15], 0xAA);
}

#[test]
fn dump_and_load_registers() {
    let mut c8 = Chip8::new();
    for r in 0..16 {
        c8.registers[r] = (10 + r) as u8;
    }
    c8.index = 0x500;
    assert_eq!(c8.execute(Instruction::DumpRegistersTill(3)), Ok(()));
    assert_eq!(&c8.memory[0x500..0x504], &[10, 11, 12, 13]);
    assert_eq!(c8.memory[0x504], 0);
    let mut c8b = Chip8::new();
    c8b.index = 0x500;
    c8b.memory[0x500] = 42;
    c8b.memory[0x501] = 43;
    c8b.registers[2] = 99;
    assert_eq!(c8b.execute(Instruction::LoadRegistersTill(1)), Ok(()));
    assert_eq!(c8b.registers[0], 42);
    assert_eq!(c8b.registers[1], 43);
    assert_eq!(c8b.registers[2], 99);
}

#[test]
fn random_and_masks_result() {
    let mut c8 = Chip8::new();
    assert_eq!(c8.execute(Instruction::RandomAND(2, 0x0F)), Ok(()));
    assert_eq!(c8.registers[2] & 0xF0, 0);
    assert_eq!(c8.pc, 0x202);
    assert_eq!(c8.execute(Instruction::RandomAND(2, 0x00)), Ok(()));
    assert_eq!(c8.registers[2], 0);
}

#[test]
fn noop_only_advances() {
    let mut c8 = Chip8::new();
    assert_eq!(c8.execute(Instruction::Noop), Ok(()));
    assert_eq!(c8.pc, 0x202);
}

#[test]
fn return_on_empty_stack_is_underflow() {
    let mut c8 = Chip8::new();
    assert_eq!(c8.execute(Instruction::Return), Err(Fault::StackUnderflow));
    assert_eq!(c8.pc, 0x200);
}

#[test]
fn call_on_full_stack_is_overflow() {
    let mut c8 = Chip8::new();
    for _ in 0..STACK_DEPTH {
        assert_eq!(c8.execute(Instruction::Subroutine(0x300)), Ok(()));
    }
    assert_eq!(c8.execute(Instruction::Subroutine(0x300)), Err(Fault::StackOverflow));
}

#[test]
fn bcd_outside_memory_is_fault() {
    let mut c8 = Chip8::new();
    c8.index = 4094;
    c8.registers[0] = 5;
    assert_eq!(c8.execute(Instruction::BCD(0)), Err(Fault::MemoryOutOfBounds));
    assert_eq!(c8.memory[4094], 0);
}

#[test]
fn dump_outside_memory_is_fault() {
    let mut c8 = Chip8::new();
    c8.index = 4090;
    assert_eq!(c8.execute(Instruction::DumpRegistersTill(8)), Err(Fault::MemoryOutOfBounds));
}

#[test]
fn load_outside_memory_is_fault() {
    let mut c8 = Chip8::new();
    c8.index = 4090;
    assert_eq!(c8.execute(Instruction::LoadRegistersTill(8)), Err(Fault::MemoryOutOfBounds));
}

#[test]
fn draw_outside_memory_is_fault() {
    let mut c8 = Chip8::new();
    c8.index = 4090;
    assert_eq!(c8.execute(Instruction::Draw(0, 1, 8)), Err(Fault::MemoryOutOfBounds));
}

#[test]
fn index_add_past_sixteen_bits_is_fault() {
    let mut c8 = Chip8::new();
    c8.index = 0xFFFF;
    c8.registers[1] = 1;
    assert_eq!(c8.execute(Instruction::AddToIndexRegister(1)), Err(Fault::IndexOverflow));
    assert_eq!(c8.index, 0xFFFF);
}

#[test]
fn key_index_above_fifteen_is_fault() {
    let mut c8 = Chip8::new();
    c8.registers[1] = 20;
    assert_eq!(c8.execute(Instruction::SkipIfKey(1)), Err(Fault::KeyOutOfRange));
    assert_eq!(c8.execute(Instruction::SkipIfNotKey(1)), Err(Fault::KeyOutOfRange));
    assert_eq!(c8.pc, 0x200);
}

#[test]
fn fetch_reads_big_endian_opcode() {
    let mut c8 = Chip8::new();
    c8.memory[0x200] = 0x6A;
    c8.memory[0x201] = 0x3F;
    assert_eq!(c8.fetch(), Ok(0x6A3F));
}

#[test]
fn fetch_outside_memory_is_fatal() {
    let mut c8 = Chip8::new();
    c8.pc = 4095;
    assert_eq!(c8.fetch(), Err(VmError::FetchOutOfBounds(4095)));
    c8.pc = 4096;
    assert_eq!(c8.fetch(), Err(VmError::FetchOutOfBounds(4096)));
}

#[test]
fn cycle_runs_one_instruction() {
    let mut c8 = Chip8::new();
    let rom: Vec<u8> = vec![0x61, 0x05, 0x71, 0x03];
    assert_eq!(c8.load_rom(&rom), Ok(()));
    assert_eq!(c8.cycle(), Ok(()));
    assert_eq!(c8.registers[1], 0x05);
    assert_eq!(c8.pc, 0x202);
    assert_eq!(c8.cycle(), Ok(()));
    assert_eq!(c8.registers[1], 0x08);
    assert_eq!(c8.pc, 0x204);
}

#[test]
fn cycle_reports_fault_with_pc_and_opcode() {
    let mut c8 = Chip8::new();
    let rom: Vec<u8> = vec![0x00, 0xEE];
    assert_eq!(c8.load_rom(&rom), Ok(()));
    assert_eq!(c8.cycle(), Err(VmError::Exec(0x200, 0x00EE, Fault::StackUnderflow)));
    assert_eq!(c8.pc, 0x200);
}

#[test]
fn rom_too_large_is_rejected() {
    let mut c8 = Chip8::new();
    let rom: Vec<u8> = vec![0u8; MEMORY_SIZE - PROGRAM_START + 1];
    assert_eq!(c8.load_rom(&rom), Err(ConfigError::RomTooLarge));
    let rom: Vec<u8> = vec![7u8; MEMORY_SIZE - PROGRAM_START];
    assert_eq!(c8.load_rom(&rom), Ok(()));
    assert_eq!(c8.memory[0x200], 7);
    assert_eq!(c8.memory[4095], 7);
}

#[test]
fn new_machine_has_fonts_and_clean_state() {
    let c8 = Chip8::new();
    assert_eq!(c8.pc as usize, PROGRAM_START);
    assert_eq!(c8.index, 0);
    assert_eq!(c8.memory[FONT_START], 0xF0);
    assert_eq!(c8.memory[0x9F], 0x80);
    assert_eq!(c8.memory[0x4F], 0);
    assert_eq!(c8.memory[0xA0], 0);
    assert!(c8.call_stack.is_empty());
    assert!(c8.registers.iter().all(|&r| r == 0));
    assert!(c8.keypad.iter().all(|&k| !k));
    assert!(c8.display.iter().all(|&p| !p));
    assert!(c8.index_add_sets_flag);
}

#[test]
fn random_rest_is_exact_for_a_chosen_byte() {
    let mut c8 = Chip8::new();
    c8.execute_random_and(3, 0x3C, 0xAB);
    assert_eq!(c8.registers[3], 0xAB & 0x3C);
    assert_eq!(c8.pc, 0x202);
}
