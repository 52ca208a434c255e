//! One decode test per entry of the opcode table, with representative
//! operand values, plus the unrecognized patterns that decode to no-ops.

use chip8::decode::decode;
use chip8::instr::Instruction;

#[test]
fn decode_clear_screen() {
    assert_eq!(decode(0x00E0), Instruction::ClearScreen);
}

#[test]
fn decode_return() {
    assert_eq!(decode(0x00EE), Instruction::Return);
}

#[test]
fn decode_jump() {
    assert_eq!(decode(0x1ABC), Instruction::JumpTo(0xABC));
}

#[test]
fn decode_subroutine() {
    assert_eq!(decode(0x2345), Instruction::Subroutine(0x345));
}

#[test]
fn decode_skip_if_register_equal_value() {
    assert_eq!(decode(0x3A7F), Instruction::SkipIfRegisterEqualValue(0xA, 0x7F));
}

#[test]
fn decode_skip_if_register_not_equal_value() {
    assert_eq!(decode(0x4B12), Instruction::SkipIfRegisterNotEqualValue(0xB, 0x12));
}

#[test]
fn decode_skip_if_register_equal_register() {
    assert_eq!(decode(0x5C30), Instruction::SkipIfRegisterEqualRegister(0xC, 0x3));
}

#[test]
fn decode_set_register_to_value() {
    assert_eq!(decode(0x6A3F), Instruction::SetRegisterToValue(0xA, 0x3F));
}

#[test]
fn decode_add_register_value() {
    assert_eq!(decode(0x7D08), Instruction::AddRegisterValue(0xD, 0x08));
}

#[test]
fn decode_set_register() {
    assert_eq!(decode(0x8120), Instruction::SetRegister(0x1, 0x2));
}

#[test]
fn decode_set_register_or() {
    assert_eq!(decode(0x8341), Instruction::SetRegisterOR(0x3, 0x4));
}

#[test]
fn decode_set_register_and() {
    assert_eq!(decode(0x8562), Instruction::SetRegisterAND(0x5, 0x6));
}

#[test]
fn decode_set_register_xor() {
    assert_eq!(decode(0x8783), Instruction::SetRegisterXOR(0x7, 0x8));
}

#[test]
fn decode_add_register_to_register() {
    assert_eq!(decode(0x89A4), Instruction::AddRegisterToRegister(0x9, 0xA));
}

#[test]
fn decode_sub_register_85() {
    assert_eq!(decode(0x8BC5), Instruction::SubRegisterToRegister85(0xB, 0xC));
}

#[test]
fn decode_shift_right() {
    assert_eq!(decode(0x8D06), Instruction::ShiftRight(0xD));
}

#[test]
fn decode_sub_register_87() {
    assert_eq!(decode(0x8EF7), Instruction::SubRegisterToRegister87(0xE, 0xF));
}

#[test]
fn decode_shift_left() {
    assert_eq!(decode(0x810E), Instruction::ShiftLeft(0x1));
}

#[test]
fn decode_skip_if_register_not_equal_register() {
    assert_eq!(decode(0x9230), Instruction::SkipIfRegisterNotEqualRegister(0x2, 0x3));
}

#[test]
fn decode_set_index() {
    assert_eq!(decode(0xA9E5), Instruction::SetIndex(0x9E5));
}

#[test]
fn decode_jump_rel_v0() {
    assert_eq!(decode(0xB321), Instruction::JumpRelV0(0x321));
}

#[test]
fn decode_random_and() {
    assert_eq!(decode(0xC477), Instruction::RandomAND(0x4, 0x77));
}

#[test]
fn decode_draw() {
    assert_eq!(decode(0xD125), Instruction::Draw(0x1, 0x2, 0x5));
}

#[test]
fn decode_skip_if_key() {
    assert_eq!(decode(0xE59E), Instruction::SkipIfKey(0x5));
}

#[test]
fn decode_skip_if_not_key() {
    assert_eq!(decode(0xE6A1), Instruction::SkipIfNotKey(0x6));
}

#[test]
fn decode_set_to_delay_timer() {
    assert_eq!(decode(0xF707), Instruction::SetToDelayTimer(0x7));
}

#[test]
fn decode_get_key_press() {
    assert_eq!(decode(0xF80A), Instruction::GetKeyPress(0x8));
}

#[test]
fn decode_set_delay_timer() {
    assert_eq!(decode(0xF915), Instruction::SetDelayTimer(0x9));
}

#[test]
fn decode_set_sound_timer() {
    assert_eq!(decode(0xFA18), Instruction::SetSoundTimer(0xA));
}

#[test]
fn decode_add_to_index_register() {
    assert_eq!(decode(0xFB1E), Instruction::AddToIndexRegister(0xB));
}

#[test]
fn decode_set_index_to_sprite_addr() {
    assert_eq!(decode(0xFC29), Instruction::SetIndexToSpriteAddr(0xC));
}

#[test]
fn decode_bcd() {
    assert_eq!(decode(0xFD33), Instruction::BCD(0xD));
}

#[test]
fn decode_dump_registers() {
    assert_eq!(decode(0xFE55), Instruction::DumpRegistersTill(0xE));
}

#[test]
fn decode_load_registers() {
    assert_eq!(decode(0xFF65), Instruction::LoadRegistersTill(0xF));
}

#[test]
fn decode_unrecognized_patterns_are_noops() {
    assert_eq!(decode(0x0000), Instruction::Noop);
    assert_eq!(decode(0x0123), Instruction::Noop);
    assert_eq!(decode(0x8009), Instruction::Noop);
    assert_eq!(decode(0xE000), Instruction::Noop);
    assert_eq!(decode(0xF000), Instruction::Noop);
    assert_eq!(decode(0xF0FF), Instruction::Noop);
}

#[test]
fn decode_is_total_over_all_opcodes() {
    // Every 16-bit pattern decodes to some instruction without panicking.
    let mut oc: u32 = 0;
    while oc <= 0xFFFF {
        let _ = decode(oc as u16);
        oc += 1;
    }
}
