//! The decoded instruction set: a closed sum type with one variant per
//! opcode family, carrying the operand fields extracted from the opcode.

use vstd::prelude::*;

verus! {

/// One decoded instruction. Register operands are indices into the sixteen
/// general-purpose registers, addresses are 12-bit memory addresses, and
/// immediate operands are the low byte or low nibble of the opcode.
#[derive(Clone, Copy, Debug, PartialEq, Eq, Structural)]
pub enum Instruction {
    /// 00E0: reset every display pixel to off.
    ClearScreen,
    /// 00EE: pop a return address off the call stack and jump to it.
    Return,
    /// 1NNN: jump to address NNN.
    JumpTo(u16),
    /// 2NNN: push the address of the next instruction and jump to NNN.
    Subroutine(u16),
    /// 3XNN: skip the next instruction if register X equals NN.
    SkipIfRegisterEqualValue(usize, u8),
    /// 4XNN: skip the next instruction if register X differs from NN.
    SkipIfRegisterNotEqualValue(usize, u8),
    /// 5XY0: skip the next instruction if register X equals register Y.
    SkipIfRegisterEqualRegister(usize, usize),
    /// 6XNN: set register X to NN.
    SetRegisterToValue(usize, u8),
    /// 7XNN: add NN to register X, wrapping, without touching the flag.
    AddRegisterValue(usize, u8),
    /// 8XY0: copy register Y into register X.
    SetRegister(usize, usize),
    /// 8XY1: bitwise-or register Y into register X.
    SetRegisterOR(usize, usize),
    /// 8XY2: bitwise-and register Y into register X.
    SetRegisterAND(usize, usize),
    /// 8XY3: bitwise-xor register Y into register X.
    SetRegisterXOR(usize, usize),
    /// 8XY4: add register Y into register X, wrapping; flag = 1 on carry.
    AddRegisterToRegister(usize, usize),
    /// 8XY5: register X -= register Y, wrapping; flag = 1 when no borrow.
    SubRegisterToRegister85(usize, usize),
    /// 8XY6: shift register X right by one; flag = the bit shifted out.
    ShiftRight(usize),
    /// 8XY7: register X = register Y - register X, wrapping; flag = 1 when no borrow.
    SubRegisterToRegister87(usize, usize),
    /// 8XYE: shift register X left by one, wrapping; flag = the bit shifted out.
    ShiftLeft(usize),
    /// 9XY0: skip the next instruction if register X differs from register Y.
    SkipIfRegisterNotEqualRegister(usize, usize),
    /// ANNN: set the index register to NNN.
    SetIndex(u16),
    /// BNNN: jump to NNN plus the value of register 0.
    JumpRelV0(u16),
    /// CXNN: set register X to a random byte bitwise-anded with NN.
    RandomAND(usize, u8),
    /// DXYN: draw an 8-pixel-wide, N-row sprite read from memory at the
    /// index register, at the coordinates held in registers X and Y.
    Draw(usize, usize, u8),
    /// EX9E: skip the next instruction if the key named by register X is pressed.
    SkipIfKey(usize),
    /// EXA1: skip the next instruction if the key named by register X is not pressed.
    SkipIfNotKey(usize),
    /// FX07: copy the delay timer into register X.
    SetToDelayTimer(usize),
    /// FX0A: stall until any key is pressed, then store the lowest pressed
    /// key index into register X.
    GetKeyPress(usize),
    /// FX15: set the delay timer from register X.
    SetDelayTimer(usize),
    /// FX18: set the sound timer from register X.
    SetSoundTimer(usize),
    /// FX1E: add register X into the index register.
    AddToIndexRegister(usize),
    /// FX29: point the index register at the font sprite for register X's value.
    SetIndexToSpriteAddr(usize),
    /// FX33: store the decimal digits of register X at the index register.
    BCD(usize),
    /// FX55: copy registers 0..=X into memory starting at the index register.
    DumpRegistersTill(usize),
    /// FX65: load registers 0..=X from memory starting at the index register.
    LoadRegistersTill(usize),
    /// Any unrecognized bit pattern: advance past it without any other effect.
    Noop,
}

/// Every operand field lies in the range its opcode bit-field allows:
/// register indices below 16, addresses below 4096, nibbles below 16.
pub open spec fn instr_wf(instr: Instruction) -> bool {
    match instr {
        Instruction::ClearScreen => true,
        Instruction::Return => true,
        Instruction::JumpTo(addr) => addr < 4096,
        Instruction::Subroutine(addr) => addr < 4096,
        Instruction::SkipIfRegisterEqualValue(x, _) => x < 16,
        Instruction::SkipIfRegisterNotEqualValue(x, _) => x < 16,
        Instruction::SkipIfRegisterEqualRegister(x, y) => x < 16 && y < 16,
        Instruction::SetRegisterToValue(x, _) => x < 16,
        Instruction::AddRegisterValue(x, _) => x < 16,
        Instruction::SetRegister(x, y) => x < 16 && y < 16,
        Instruction::SetRegisterOR(x, y) => x < 16 && y < 16,
        Instruction::SetRegisterAND(x, y) => x < 16 && y < 16,
        Instruction::SetRegisterXOR(x, y) => x < 16 && y < 16,
        Instruction::AddRegisterToRegister(x, y) => x < 16 && y < 16,
        Instruction::SubRegisterToRegister85(x, y) => x < 16 && y < 16,
        Instruction::ShiftRight(x) => x < 16,
        Instruction::SubRegisterToRegister87(x, y) => x < 16 && y < 16,
        Instruction::ShiftLeft(x) => x < 16,
        Instruction::SkipIfRegisterNotEqualRegister(x, y) => x < 16 && y < 16,
        Instruction::SetIndex(addr) => addr < 4096,
        Instruction::JumpRelV0(addr) => addr < 4096,
        Instruction::RandomAND(x, _) => x < 16,
        Instruction::Draw(x, y, n) => x < 16 && y < 16 && n < 16,
        Instruction::SkipIfKey(x) => x < 16,
        Instruction::SkipIfNotKey(x) => x < 16,
        Instruction::SetToDelayTimer(x) => x < 16,
        Instruction::GetKeyPress(x) => x < 16,
        Instruction::SetDelayTimer(x) => x < 16,
        Instruction::SetSoundTimer(x) => x < 16,
        Instruction::AddToIndexRegister(x) => x < 16,
        Instruction::SetIndexToSpriteAddr(x) => x < 16,
        Instruction::BCD(x) => x < 16,
        Instruction::DumpRegistersTill(x) => x < 16,
        Instruction::LoadRegistersTill(x) => x < 16,
        Instruction::Noop => true,
    }
}

} // verus!
