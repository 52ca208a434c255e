//! The decoder: a pure, total function from a 16-bit opcode to the
//! instruction it encodes. Every bit pattern maps to some instruction;
//! unrecognized patterns map to `Noop`.

use vstd::prelude::*;
use crate::instr::{Instruction, instr_wf};

verus! {

/// The X register field: bits 8..=11 of the opcode.
pub open spec fn op_x(oc: u16) -> usize {
    ((oc >> 8) & 0xF) as usize
}

/// The Y register field: bits 4..=7 of the opcode.
pub open spec fn op_y(oc: u16) -> usize {
    ((oc >> 4) & 0xF) as usize
}

/// The address field NNN: bits 0..=11 of the opcode.
pub open spec fn op_nnn(oc: u16) -> u16 {
    oc & 0x0FFF
}

/// The immediate byte NN: bits 0..=7 of the opcode.
pub open spec fn op_nn(oc: u16) -> u8 {
    (oc & 0x00FF) as u8
}

/// The immediate nibble N: bits 0..=3 of the opcode.
pub open spec fn op_n(oc: u16) -> u8 {
    (oc & 0x000F) as u8
}

/// The full opcode table: which instruction each 16-bit opcode encodes.
/// Dispatch is on the top nibble, with nested dispatch on the low nibble
/// or low byte for the 0x0, 0x8, 0xE and 0xF families.
pub open spec fn spec_decode(oc: u16) -> Instruction {
    let x = op_x(oc);
    let y = op_y(oc);
    let nnn = op_nnn(oc);
    let nn = op_nn(oc);
    let n = op_n(oc);
    match oc & 0xF000 {
        0x0000 => match oc & 0x00FF {
            0x00E0 => Instruction::ClearScreen,
            0x00EE => Instruction::Return,
            _ => Instruction::Noop,
        },
        0x1000 => Instruction::JumpTo(nnn),
        0x2000 => Instruction::Subroutine(nnn),
        0x3000 => Instruction::SkipIfRegisterEqualValue(x, nn),
        0x4000 => Instruction::SkipIfRegisterNotEqualValue(x, nn),
        0x5000 => Instruction::SkipIfRegisterEqualRegister(x, y),
        0x6000 => Instruction::SetRegisterToValue(x, nn),
        0x7000 => Instruction::AddRegisterValue(x, nn),
        0x8000 => match oc & 0x000F {
            0x0000 => Instruction::SetRegister(x, y),
            0x0001 => Instruction::SetRegisterOR(x, y),
            0x0002 => Instruction::SetRegisterAND(x, y),
            0x0003 => Instruction::SetRegisterXOR(x, y),
            0x0004 => Instruction::AddRegisterToRegister(x, y),
            0x0005 => Instruction::SubRegisterToRegister85(x, y),
            0x0006 => Instruction::ShiftRight(x),
            0x0007 => Instruction::SubRegisterToRegister87(x, y),
            0x000E => Instruction::ShiftLeft(x),
            _ => Instruction::Noop,
        },
        0x9000 => Instruction::SkipIfRegisterNotEqualRegister(x, y),
        0xA000 => Instruction::SetIndex(nnn),
        0xB000 => Instruction::JumpRelV0(nnn),
        0xC000 => Instruction::RandomAND(x, nn),
        0xD000 => Instruction::Draw(x, y, n),
        0xE000 => match oc & 0x00FF {
            0x009E => Instruction::SkipIfKey(x),
            0x00A1 => Instruction::SkipIfNotKey(x),
            _ => Instruction::Noop,
        },
        0xF000 => match oc & 0x00FF {
            0x0007 => Instruction::SetToDelayTimer(x),
            0x000A => Instruction::GetKeyPress(x),
            0x0015 => Instruction::SetDelayTimer(x),
            0x0018 => Instruction::SetSoundTimer(x),
            0x001E => Instruction::AddToIndexRegister(x),
            0x0029 => Instruction::SetIndexToSpriteAddr(x),
            0x0033 => Instruction::BCD(x),
            0x0055 => Instruction::DumpRegistersTill(x),
            0x0065 => Instruction::LoadRegistersTill(x),
            _ => Instruction::Noop,
        },
        _ => Instruction::Noop,
    }
}

/// The operand fields of a decoded instruction lie in their bit-field ranges.
pub proof fn lemma_decode_wf(oc: u16)
    ensures
        instr_wf(spec_decode(oc)),
{
    assert((oc >> 8) & 0xF < 16) by (bit_vector);
    assert((oc >> 4) & 0xF < 16) by (bit_vector);
    assert(oc & 0x0FFF < 4096) by (bit_vector);
    assert(oc & 0x000F < 16) by (bit_vector);
}

/// Decodes a 16-bit opcode. Pure and total: every input maps to some
/// instruction, exactly as `spec_decode` lays the table out.
pub fn decode(oc: u16) -> (instr: Instruction)
    ensures
        instr == spec_decode(oc),
        instr_wf(instr),
{
    proof {
        lemma_decode_wf(oc);
    }
    let x: usize = ((oc >> 8) & 0xF) as usize;
    let y: usize = ((oc >> 4) & 0xF) as usize;
    let nnn: u16 = oc & 0x0FFF;
    let nn: u8 = (oc & 0x00FF) as u8;
    let n: u8 = (oc & 0x000F) as u8;
    match oc & 0xF000 {
        0x0000 => match oc & 0x00FF {
            0x00E0 => Instruction::ClearScreen,
            0x00EE => Instruction::Return,
            _ => Instruction::Noop,
        },
        0x1000 => Instruction::JumpTo(nnn),
        0x2000 => Instruction::Subroutine(nnn),
        0x3000 => Instruction::SkipIfRegisterEqualValue(x, nn),
        0x4000 => Instruction::SkipIfRegisterNotEqualValue(x, nn),
        0x5000 => Instruction::SkipIfRegisterEqualRegister(x, y),
        0x6000 => Instruction::SetRegisterToValue(x, nn),
        0x7000 => Instruction::AddRegisterValue(x, nn),
        0x8000 => match oc & 0x000F {
            0x0000 => Instruction::SetRegister(x, y),
            0x0001 => Instruction::SetRegisterOR(x, y),
            0x0002 => Instruction::SetRegisterAND(x, y),
            0x0003 => Instruction::SetRegisterXOR(x, y),
            0x0004 => Instruction::AddRegisterToRegister(x, y),
            0x0005 => Instruction::SubRegisterToRegister85(x, y),
            0x0006 => Instruction::ShiftRight(x),
            0x0007 => Instruction::SubRegisterToRegister87(x, y),
            0x000E => Instruction::ShiftLeft(x),
            _ => Instruction::Noop,
        },
        0x9000 => Instruction::SkipIfRegisterNotEqualRegister(x, y),
        0xA000 => Instruction::SetIndex(nnn),
        0xB000 => Instruction::JumpRelV0(nnn),
        0xC000 => Instruction::RandomAND(x, nn),
        0xD000 => Instruction::Draw(x, y, n),
        0xE000 => match oc & 0x00FF {
            0x009E => Instruction::SkipIfKey(x),
            0x00A1 => Instruction::SkipIfNotKey(x),
            _ => Instruction::Noop,
        },
        0xF000 => match oc & 0x00FF {
            0x0007 => Instruction::SetToDelayTimer(x),
            0x000A => Instruction::GetKeyPress(x),
            0x0015 => Instruction::SetDelayTimer(x),
            0x0018 => Instruction::SetSoundTimer(x),
            0x001E => Instruction::AddToIndexRegister(x),
            0x0029 => Instruction::SetIndexToSpriteAddr(x),
            0x0033 => Instruction::BCD(x),
            0x0055 => Instruction::DumpRegistersTill(x),
            0x0065 => Instruction::LoadRegistersTill(x),
            _ => Instruction::Noop,
        },
        _ => Instruction::Noop,
    }
}

} // verus!
