//! The executor: the exact state-machine semantics of every instruction,
//! as a relation between the machine state before and after one
//! instruction, the fatal faults an instruction can raise, the executable
//! `execute` proved against that relation, and the fetch-decode-execute
//! cycle.

use vstd::prelude::*;
use vstd::pervasive::VecAdditionalExecFns;
use crate::decode::{decode, spec_decode};
use crate::draw::{draw_collision, draw_display};
use crate::instr::{Instruction, instr_wf};
use crate::machine::{Chip8, Fault, MachineView, VmError, fetch16};

verus! {

/// The program counter moved forward by `d` bytes.
pub open spec fn pc_plus(pc: u16, d: int) -> u16 {
    (pc + d) as u16
}

/// An 8-bit value wrapped into a byte.
pub open spec fn wrap8(v: int) -> u8 {
    (v % 256) as u8
}

/// Memory with registers `0..n` written at `index`: the register dump.
pub open spec fn write_regs(mem: Seq<u8>, regs: Seq<u8>, index: int, n: int) -> Seq<u8> {
    Seq::new(
        mem.len(),
        |p: int|
            if index <= p < index + n {
                regs[p - index]
            } else {
                mem[p]
            },
    )
}

/// Registers with `0..n` loaded from memory at `index`: the register load.
pub open spec fn load_regs(regs: Seq<u8>, mem: Seq<u8>, index: int, n: int) -> Seq<u8> {
    Seq::new(
        regs.len(),
        |r: int|
            if r < n {
                mem[index + r]
            } else {
                regs[r]
            },
    )
}

/// The lowest pressed key at or above index `k`, or 16 when none is.
pub open spec fn first_pressed_from(keypad: Seq<bool>, k: int) -> int
    decreases 16 - k when k <= 16
{
    if k >= 16 {
        16
    } else if keypad[k] {
        k
    } else {
        first_pressed_from(keypad, k + 1)
    }
}

/// The lowest pressed key, or 16 when no key is pressed.
pub open spec fn first_pressed(keypad: Seq<bool>) -> int {
    first_pressed_from(keypad, 0)
}

/// The fatal fault executing `instr` in state `pre` raises, if any:
/// popping an empty call stack, pushing a full one, reaching at or past
/// the end of memory through the index register, growing the index
/// register past its 16-bit range, or naming a key above 15. Addresses
/// out of range are faults, never silently wrapped.
pub open spec fn fault_of(pre: MachineView, instr: Instruction) -> Option<Fault> {
    match instr {
        Instruction::Return => if pre.call_stack.len() == 0 {
            Some(Fault::StackUnderflow)
        } else {
            None
        },
        Instruction::Subroutine(_) => if pre.call_stack.len() >= 16 {
            Some(Fault::StackOverflow)
        } else {
            None
        },
        Instruction::Draw(_, _, h) => if pre.index + h > 4096 {
            Some(Fault::MemoryOutOfBounds)
        } else {
            None
        },
        Instruction::SkipIfKey(x) => if pre.registers[x as int] >= 16 {
            Some(Fault::KeyOutOfRange)
        } else {
            None
        },
        Instruction::SkipIfNotKey(x) => if pre.registers[x as int] >= 16 {
            Some(Fault::KeyOutOfRange)
        } else {
            None
        },
        Instruction::AddToIndexRegister(x) => if pre.index + pre.registers[x as int] > 0xFFFF {
            Some(Fault::IndexOverflow)
        } else {
            None
        },
        Instruction::BCD(_) => if pre.index + 3 > 4096 {
            Some(Fault::MemoryOutOfBounds)
        } else {
            None
        },
        Instruction::DumpRegistersTill(x) => if pre.index + x + 1 > 4096 {
            Some(Fault::MemoryOutOfBounds)
        } else {
            None
        },
        Instruction::LoadRegistersTill(x) => if pre.index + x + 1 > 4096 {
            Some(Fault::MemoryOutOfBounds)
        } else {
            None
        },
        _ => None,
    }
}

/// One instruction's effect: `post` is a state that executing `instr` in
/// state `pre` can leave behind. Deterministic for every instruction but
/// the random one, whose drawn byte may be anything.
pub open spec fn step(pre: MachineView, instr: Instruction, post: MachineView) -> bool {
    match instr {
        Instruction::ClearScreen => post == (MachineView {
            display: Seq::new(2048, |p: int| false),
            pc: pc_plus(pre.pc, 2),
            ..pre
        }),
        Instruction::Return => {
            &&& pre.call_stack.len() > 0
            &&& post == (MachineView {
                pc: pre.call_stack.last(),
                call_stack: pre.call_stack.drop_last(),
                ..pre
            })
        },
        Instruction::JumpTo(addr) => post == (MachineView { pc: addr, ..pre }),
        Instruction::Subroutine(addr) => {
            &&& pre.call_stack.len() < 16
            &&& post == (MachineView {
                pc: addr,
                call_stack: pre.call_stack.push(pc_plus(pre.pc, 2)),
                ..pre
            })
        },
        Instruction::SkipIfRegisterEqualValue(x, v) => post == (MachineView {
            pc: pc_plus(pre.pc, if pre.registers[x as int] == v { 4int } else { 2int }),
            ..pre
        }),
        Instruction::SkipIfRegisterNotEqualValue(x, v) => post == (MachineView {
            pc: pc_plus(pre.pc, if pre.registers[x as int] != v { 4int } else { 2int }),
            ..pre
        }),
        Instruction::SkipIfRegisterEqualRegister(x, y) => post == (MachineView {
            pc: pc_plus(
                pre.pc,
                if pre.registers[x as int] == pre.registers[y as int] { 4int } else { 2int },
            ),
            ..pre
        }),
        Instruction::SetRegisterToValue(x, v) => post == (MachineView {
            registers: pre.registers.update(x as int, v),
            pc: pc_plus(pre.pc, 2),
            ..pre
        }),
        Instruction::AddRegisterValue(x, v) => post == (MachineView {
            registers: pre.registers.update(x as int, wrap8(pre.registers[x as int] + v)),
            pc: pc_plus(pre.pc, 2),
            ..pre
        }),
        Instruction::SetRegister(x, y) => post == (MachineView {
            registers: pre.registers.update(x as int, pre.registers[y as int]),
            pc: pc_plus(pre.pc, 2),
            ..pre
        }),
        Instruction::SetRegisterOR(x, y) => post == (MachineView {
            registers: pre.registers.update(
                x as int,
                pre.registers[x as int] | pre.registers[y as int],
            ),
            pc: pc_plus(pre.pc, 2),
            ..pre
        }),
        Instruction::SetRegisterAND(x, y) => post == (MachineView {
            registers: pre.registers.update(
                x as int,
                pre.registers[x as int] & pre.registers[y as int],
            ),
            pc: pc_plus(pre.pc, 2),
            ..pre
        }),
        Instruction::SetRegisterXOR(x, y) => post == (MachineView {
            registers: pre.registers.update(
                x as int,
                pre.registers[x as int] ^ pre.registers[y as int],
            ),
            pc: pc_plus(pre.pc, 2),
            ..pre
        }),
        Instruction::AddRegisterToRegister(x, y) => {
            let sum = pre.registers[x as int] + pre.registers[y as int];
            post == (MachineView {
                registers: pre.registers.update(x as int, wrap8(sum)).update(
                    15,
                    if sum > 255 { 1u8 } else { 0u8 },
                ),
                pc: pc_plus(pre.pc, 2),
                ..pre
            })
        },
        Instruction::SubRegisterToRegister85(x, y) => {
            let vx = pre.registers[x as int];
            let vy = pre.registers[y as int];
            post == (MachineView {
                registers: pre.registers.update(15, if vx >= vy { 1u8 } else { 0u8 }).update(
                    x as int,
                    wrap8(vx - vy),
                ),
                pc: pc_plus(pre.pc, 2),
                ..pre
            })
        },
        Instruction::ShiftRight(x) => {
            let vx = pre.registers[x as int];
            post == (MachineView {
                registers: pre.registers.update(15, vx & 1).update(x as int, vx >> 1),
                pc: pc_plus(pre.pc, 2),
                ..pre
            })
        },
        Instruction::SubRegisterToRegister87(x, y) => {
            let vx = pre.registers[x as int];
            let vy = pre.registers[y as int];
            post == (MachineView {
                registers: pre.registers.update(15, if vx <= vy { 1u8 } else { 0u8 }).update(
                    x as int,
                    wrap8(vy - vx),
                ),
                pc: pc_plus(pre.pc, 2),
                ..pre
            })
        },
        Instruction::ShiftLeft(x) => {
            let vx = pre.registers[x as int];
            post == (MachineView {
                registers: pre.registers.update(15, vx >> 7).update(x as int, wrap8(vx * 2)),
                pc: pc_plus(pre.pc, 2),
                ..pre
            })
        },
        Instruction::SkipIfRegisterNotEqualRegister(x, y) => post == (MachineView {
            pc: pc_plus(
                pre.pc,
                if pre.registers[x as int] != pre.registers[y as int] { 4int } else { 2int },
            ),
            ..pre
        }),
        Instruction::SetIndex(addr) => post == (MachineView {
            index: addr,
            pc: pc_plus(pre.pc, 2),
            ..pre
        }),
        Instruction::JumpRelV0(addr) => post == (MachineView {
            pc: (addr + pre.registers[0]) as u16,
            ..pre
        }),
        Instruction::RandomAND(x, mask) => exists|b: u8|
            post == (MachineView {
                registers: #[trigger] pre.registers.update(x as int, b & mask),
                pc: pc_plus(pre.pc, 2),
                ..pre
            }),
        Instruction::Draw(x, y, h) => {
            &&& pre.index + h <= 4096
            &&& post == (MachineView {
                display: draw_display(
                    pre.display,
                    pre.memory,
                    pre.index as int,
                    pre.registers[x as int] as int,
                    pre.registers[y as int] as int,
                    h as int,
                ),
                registers: pre.registers.update(
                    15,
                    if draw_collision(
                        pre.display,
                        pre.memory,
                        pre.index as int,
                        pre.registers[x as int] as int,
                        pre.registers[y as int] as int,
                        h as int,
                    ) {
                        1u8
                    } else {
                        0u8
                    },
                ),
                pc: pc_plus(pre.pc, 2),
                ..pre
            })
        },
        Instruction::SkipIfKey(x) => {
            &&& pre.registers[x as int] < 16
            &&& post == (MachineView {
                pc: pc_plus(
                    pre.pc,
                    if pre.keypad[pre.registers[x as int] as int] { 4int } else { 2int },
                ),
                ..pre
            })
        },
        Instruction::SkipIfNotKey(x) => {
            &&& pre.registers[x as int] < 16
            &&& post == (MachineView {
                pc: pc_plus(
                    pre.pc,
                    if !pre.keypad[pre.registers[x as int] as int] { 4int } else { 2int },
                ),
                ..pre
            })
        },
        Instruction::SetToDelayTimer(x) => post == (MachineView {
            registers: pre.registers.update(x as int, pre.delay_timer),
            pc: pc_plus(pre.pc, 2),
            ..pre
        }),
        Instruction::GetKeyPress(x) => if first_pressed(pre.keypad) < 16 {
            post == (MachineView {
                registers: pre.registers.update(x as int, first_pressed(pre.keypad) as u8),
                pc: pc_plus(pre.pc, 2),
                ..pre
            })
        } else {
            post == pre
        },
        Instruction::SetDelayTimer(x) => post == (MachineView {
            delay_timer: pre.registers[x as int],
            pc: pc_plus(pre.pc, 2),
            ..pre
        }),
        Instruction::SetSoundTimer(x) => post == (MachineView {
            sound_timer: pre.registers[x as int],
            pc: pc_plus(pre.pc, 2),
            ..pre
        }),
        Instruction::AddToIndexRegister(x) => {
            let sum = pre.index + pre.registers[x as int];
            &&& sum <= 0xFFFF
            &&& post == (MachineView {
                index: sum as u16,
                registers: if pre.index_add_sets_flag {
                    pre.registers.update(15, if sum > 0x0FFF { 1u8 } else { 0u8 })
                } else {
                    pre.registers
                },
                pc: pc_plus(pre.pc, 2),
                ..pre
            })
        },
        Instruction::SetIndexToSpriteAddr(x) => post == (MachineView {
            index: (0x50 + 5 * pre.registers[x as int]) as u16,
            pc: pc_plus(pre.pc, 2),
            ..pre
        }),
        Instruction::BCD(x) => {
            let vx = pre.registers[x as int] as int;
            &&& pre.index + 3 <= 4096
            &&& post == (MachineView {
                memory: pre.memory.update(pre.index as int, (vx / 100) as u8).update(
                    pre.index + 1,
                    ((vx / 10) % 10) as u8,
                ).update(pre.index + 2, (vx % 10) as u8),
                pc: pc_plus(pre.pc, 2),
                ..pre
            })
        },
        Instruction::DumpRegistersTill(x) => {
            &&& pre.index + x + 1 <= 4096
            &&& post == (MachineView {
                memory: write_regs(pre.memory, pre.registers, pre.index as int, x as int + 1),
                pc: pc_plus(pre.pc, 2),
                ..pre
            })
        },
        Instruction::LoadRegistersTill(x) => {
            &&& pre.index + x + 1 <= 4096
            &&& post == (MachineView {
                registers: load_regs(pre.registers, pre.memory, pre.index as int, x as int + 1),
                pc: pc_plus(pre.pc, 2),
                ..pre
            })
        },
        Instruction::Noop => post == (MachineView { pc: pc_plus(pre.pc, 2), ..pre }),
    }
}

/// Relies on rand::random: draws one byte from the thread-local random
/// generator. Nothing is promised of the value.
#[verifier::external_body]
fn random_byte() -> u8 {
    rand::random()
}

/// The instructions the `execute_control` helper handles.
spec fn is_control_instr(i: Instruction) -> bool {
    ||| i is Return
    ||| i is JumpTo
    ||| i is Subroutine
    ||| i is SkipIfRegisterEqualValue
    ||| i is SkipIfRegisterNotEqualValue
    ||| i is SkipIfRegisterEqualRegister
    ||| i is SkipIfRegisterNotEqualRegister
    ||| i is JumpRelV0
    ||| i is Noop
}

/// The instructions the `execute_alu` helper handles.
spec fn is_alu_instr(i: Instruction) -> bool {
    ||| i is SetRegisterToValue
    ||| i is AddRegisterValue
    ||| i is SetRegister
    ||| i is SetRegisterOR
    ||| i is SetRegisterAND
    ||| i is SetRegisterXOR
}

/// The instructions the `execute_arith` helper handles.
spec fn is_arith_instr(i: Instruction) -> bool {
    ||| i is AddRegisterToRegister
    ||| i is SubRegisterToRegister85
    ||| i is ShiftRight
    ||| i is SubRegisterToRegister87
    ||| i is ShiftLeft
}

/// The instructions the `execute_indexed` helper handles.
spec fn is_indexed_instr(i: Instruction) -> bool {
    ||| i is SetIndex
    ||| i is AddToIndexRegister
    ||| i is SetIndexToSpriteAddr
    ||| i is BCD
    ||| i is DumpRegistersTill
    ||| i is LoadRegistersTill
}

/// The instructions the `execute_io` helper handles.
spec fn is_io_instr(i: Instruction) -> bool {
    ||| i is ClearScreen
    ||| i is Draw
    ||| i is RandomAND
    ||| i is SkipIfKey
    ||| i is SkipIfNotKey
    ||| i is SetToDelayTimer
    ||| i is GetKeyPress
    ||| i is SetDelayTimer
    ||| i is SetSoundTimer
}

impl Chip8 {
    /// Stores `b & mask` into register `x` and advances past the
    /// instruction: the deterministic rest of the random instruction,
    /// exact for every byte the random source may hand back.
    pub fn execute_random_and(&mut self, x: usize, mask: u8, b: u8)
        requires
            old(self).wf(),
            x < 16,
            old(self)@.pc + 1 < 4096,
        ensures
            final(self).wf(),
            final(self)@ == (MachineView {
                registers: old(self)@.registers.update(x as int, b & mask),
                pc: pc_plus(old(self)@.pc, 2),
                ..old(self)@
            }),
    {
        self.registers.set(x, b & mask);
        self.pc = self.pc + 2;
    }

    /// The jumps, calls, returns, register-compare skips and the no-op. Same contract as `execute`.
    fn execute_control(&mut self, instr: Instruction) -> (r: Result<(), Fault>)
        requires
            old(self).wf(),
            instr_wf(instr),
            is_control_instr(instr),
            old(self)@.pc + 1 < 4096,
        ensures
            final(self).wf(),
            match r {
                Ok(()) => fault_of(old(self)@, instr) is None && step(
                    old(self)@,
                    instr,
                    final(self)@,
                ),
                Err(f) => Some(f) == fault_of(old(self)@, instr) && final(self)@ == old(self)@,
            },
    {
        match instr {
            Instruction::Return => {
                if self.call_stack.len() == 0 {
                    return Err(Fault::StackUnderflow);
                }
                let ret_addr = self.call_stack.pop().unwrap();
                self.pc = ret_addr;
                Ok(())
            },
            Instruction::JumpTo(addr) => {
                self.pc = addr;
                Ok(())
            },
            Instruction::Subroutine(addr) => {
                if self.call_stack.len() >= 16 {
                    return Err(Fault::StackOverflow);
                }
                self.call_stack.push(self.pc + 2);
                self.pc = addr;
                Ok(())
            },
            Instruction::SkipIfRegisterEqualValue(x, v) => {
                self.pc = self.pc + 2;
                if self.registers[x] == v {
                    self.pc = self.pc + 2;
                }
                Ok(())
            },
            Instruction::SkipIfRegisterNotEqualValue(x, v) => {
                self.pc = self.pc + 2;
                if self.registers[x] != v {
                    self.pc = self.pc + 2;
                }
                Ok(())
            },
            Instruction::SkipIfRegisterEqualRegister(x, y) => {
                self.pc = self.pc + 2;
                if self.registers[x] == self.registers[y] {
                    self.pc = self.pc + 2;
                }
                Ok(())
            },
            Instruction::SkipIfRegisterNotEqualRegister(x, y) => {
                self.pc = self.pc + 2;
                if self.registers[x] != self.registers[y] {
                    self.pc = self.pc + 2;
                }
                Ok(())
            },
            Instruction::JumpRelV0(addr) => {
                self.pc = addr + self.registers[0] as u16;
                Ok(())
            },
            Instruction::Noop => {
                self.pc = self.pc + 2;
                Ok(())
            },
            _ => vstd::pervasive::unreached(),
        }
    }

    /// The flag-writing arithmetic and shift instructions. Same contract
    /// as `execute`.
    fn execute_arith(&mut self, instr: Instruction) -> (r: Result<(), Fault>)
        requires
            old(self).wf(),
            instr_wf(instr),
            is_arith_instr(instr),
            old(self)@.pc + 1 < 4096,
        ensures
            final(self).wf(),
            match r {
                Ok(()) => fault_of(old(self)@, instr) is None && step(
                    old(self)@,
                    instr,
                    final(self)@,
                ),
                Err(f) => Some(f) == fault_of(old(self)@, instr) && final(self)@ == old(self)@,
            },
    {
        match instr {
            Instruction::AddRegisterToRegister(x, y) => {
                self.pc = self.pc + 2;
                let vx = self.registers[x];
                let vy = self.registers[y];
                self.registers.set(x, vx.wrapping_add(vy));
                let flag: u8 = if vx as u16 + vy as u16 > 255 {
                    1
                } else {
                    0
                };
                self.registers.set(15, flag);
                Ok(())
            },
            Instruction::SubRegisterToRegister85(x, y) => {
                self.pc = self.pc + 2;
                let vx = self.registers[x];
                let vy = self.registers[y];
                let flag: u8 = if vx >= vy {
                    1
                } else {
                    0
                };
                self.registers.set(15, flag);
                self.registers.set(x, vx.wrapping_sub(vy));
                Ok(())
            },
            Instruction::ShiftRight(x) => {
                self.pc = self.pc + 2;
                let vx = self.registers[x];
                self.registers.set(15, vx & 1);
                self.registers.set(x, vx >> 1);
                Ok(())
            },
            Instruction::SubRegisterToRegister87(x, y) => {
                self.pc = self.pc + 2;
                let vx = self.registers[x];
                let vy = self.registers[y];
                let flag: u8 = if vx <= vy {
                    1
                } else {
                    0
                };
                self.registers.set(15, flag);
                self.registers.set(x, vy.wrapping_sub(vx));
                Ok(())
            },
            Instruction::ShiftLeft(x) => {
                self.pc = self.pc + 2;
                let vx = self.registers[x];
                self.registers.set(15, vx >> 7);
                self.registers.set(x, vx.wrapping_mul(2));
                Ok(())
            },
            _ => vstd::pervasive::unreached(),
        }
    }

    /// The register-to-register and register-immediate arithmetic, logic
    /// and shift instructions. Same contract as `execute`.
    fn execute_alu(&mut self, instr: Instruction) -> (r: Result<(), Fault>)
        requires
            old(self).wf(),
            instr_wf(instr),
            is_alu_instr(instr),
            old(self)@.pc + 1 < 4096,
        ensures
            final(self).wf(),
            match r {
                Ok(()) => fault_of(old(self)@, instr) is None && step(
                    old(self)@,
                    instr,
                    final(self)@,
                ),
                Err(f) => Some(f) == fault_of(old(self)@, instr) && final(self)@ == old(self)@,
            },
    {
        match instr {
            Instruction::SetRegisterToValue(x, v) => {
                self.pc = self.pc + 2;
                self.registers.set(x, v);
                Ok(())
            },
            Instruction::AddRegisterValue(x, v) => {
                self.pc = self.pc + 2;
                let vx = self.registers[x];
                self.registers.set(x, vx.wrapping_add(v));
                Ok(())
            },
            Instruction::SetRegister(x, y) => {
                self.pc = self.pc + 2;
                let vy = self.registers[y];
                self.registers.set(x, vy);
                Ok(())
            },
            Instruction::SetRegisterOR(x, y) => {
                self.pc = self.pc + 2;
                let v = self.registers[x] | self.registers[y];
                self.registers.set(x, v);
                Ok(())
            },
            Instruction::SetRegisterAND(x, y) => {
                self.pc = self.pc + 2;
                let v = self.registers[x] & self.registers[y];
                self.registers.set(x, v);
                Ok(())
            },
            Instruction::SetRegisterXOR(x, y) => {
                self.pc = self.pc + 2;
                let v = self.registers[x] ^ self.registers[y];
                self.registers.set(x, v);
                Ok(())
            },
            _ => vstd::pervasive::unreached(),
        }
    }

    /// The index-register and memory-indexed instructions. Same contract as `execute`.
    fn execute_indexed(&mut self, instr: Instruction) -> (r: Result<(), Fault>)
        requires
            old(self).wf(),
            instr_wf(instr),
            is_indexed_instr(instr),
            old(self)@.pc + 1 < 4096,
        ensures
            final(self).wf(),
            match r {
                Ok(()) => fault_of(old(self)@, instr) is None && step(
                    old(self)@,
                    instr,
                    final(self)@,
                ),
                Err(f) => Some(f) == fault_of(old(self)@, instr) && final(self)@ == old(self)@,
            },
    {
        match instr {
            Instruction::SetIndex(addr) => {
                self.index = addr;
                self.pc = self.pc + 2;
                Ok(())
            },
            Instruction::AddToIndexRegister(x) => {
                let vx = self.registers[x];
                let sum: u32 = self.index as u32 + vx as u32;
                if sum > 0xFFFF {
                    return Err(Fault::IndexOverflow);
                }
                self.index = sum as u16;
                if self.index_add_sets_flag {
                    let flag: u8 = if self.index > 0x0FFF {
                        1
                    } else {
                        0
                    };
                    self.registers.set(15, flag);
                }
                self.pc = self.pc + 2;
                Ok(())
            },
            Instruction::SetIndexToSpriteAddr(x) => {
                self.pc = self.pc + 2;
                let vx = self.registers[x];
                self.index = 0x50 + 5 * (vx as u16);
                Ok(())
            },
            Instruction::BCD(x) => {
                if self.index as usize + 3 > 4096 {
                    return Err(Fault::MemoryOutOfBounds);
                }
                let idx = self.index as usize;
                let vx = self.registers[x];
                self.memory.set(idx, vx / 100);
                self.memory.set(idx + 1, (vx / 10) % 10);
                self.memory.set(idx + 2, vx % 10);
                self.pc = self.pc + 2;
                Ok(())
            },
            Instruction::DumpRegistersTill(x) => {
                if self.index as usize + x + 1 > 4096 {
                    return Err(Fault::MemoryOutOfBounds);
                }
                let idx = self.index as usize;
                let mut i: usize = 0;
                while i < x + 1
                    invariant
                        i <= x + 1,
                        x < 16,
                        idx == old(self)@.index,
                        idx + x + 1 <= 4096,
                        self.wf(),
                        self@ == (MachineView { memory: self@.memory, ..old(self)@ }),
                        forall|p: int|
                            idx <= p < idx + i ==> self@.memory[p] == old(self)@.registers[p - idx],
                        forall|p: int|
                            0 <= p < 4096 && !(idx <= p < idx + i) ==> self@.memory[p] == old(
                                self,
                            )@.memory[p],
                    decreases x + 1 - i,
                {
                    let v = self.registers[i];
                    self.memory.set(idx + i, v);
                    i = i + 1;
                }
                proof {
                    assert(self@.memory =~= write_regs(
                        old(self)@.memory,
                        old(self)@.registers,
                        idx as int,
                        x as int + 1,
                    ));
                }
                self.pc = self.pc + 2;
                Ok(())
            },
            Instruction::LoadRegistersTill(x) => {
                if self.index as usize + x + 1 > 4096 {
                    return Err(Fault::MemoryOutOfBounds);
                }
                let idx = self.index as usize;
                let mut i: usize = 0;
                while i < x + 1
                    invariant
                        i <= x + 1,
                        x < 16,
                        idx == old(self)@.index,
                        idx + x + 1 <= 4096,
                        self.wf(),
                        self@ == (MachineView { registers: self@.registers, ..old(self)@ }),
                        forall|r: int|
                            0 <= r < i ==> self@.registers[r] == old(self)@.memory[idx + r],
                        forall|r: int|
                            i <= r < 16 ==> self@.registers[r] == old(self)@.registers[r],
                    decreases x + 1 - i,
                {
                    let v = self.memory[idx + i];
                    self.registers.set(i, v);
                    i = i + 1;
                }
                proof {
                    assert(self@.registers =~= load_regs(
                        old(self)@.registers,
                        old(self)@.memory,
                        idx as int,
                        x as int + 1,
                    ));
                }
                self.pc = self.pc + 2;
                Ok(())
            },
            _ => vstd::pervasive::unreached(),
        }
    }

    /// The display, keypad, timer and random instructions. Same contract as `execute`.
    fn execute_io(&mut self, instr: Instruction) -> (r: Result<(), Fault>)
        requires
            old(self).wf(),
            instr_wf(instr),
            is_io_instr(instr),
            old(self)@.pc + 1 < 4096,
        ensures
            final(self).wf(),
            match r {
                Ok(()) => fault_of(old(self)@, instr) is None && step(
                    old(self)@,
                    instr,
                    final(self)@,
                ),
                Err(f) => Some(f) == fault_of(old(self)@, instr) && final(self)@ == old(self)@,
            },
    {
        match instr {
            Instruction::ClearScreen => {
                self.clear_screen();
                self.pc = self.pc + 2;
                Ok(())
            },
            Instruction::Draw(x, y, h) => {
                if self.index as usize + h as usize > 4096 {
                    return Err(Fault::MemoryOutOfBounds);
                }
                let vx = self.registers[x];
                let vy = self.registers[y];
                let collision = self.draw_sprite(vx, vy, h);
                let flag: u8 = if collision {
                    1
                } else {
                    0
                };
                self.registers.set(15, flag);
                self.pc = self.pc + 2;
                Ok(())
            },
            Instruction::RandomAND(x, mask) => {
                let b = random_byte();
                self.execute_random_and(x, mask, b);
                proof {
                    assert(step(old(self)@, instr, self@)) by {
                        assert(self@ == (MachineView {
                            registers: old(self)@.registers.update(x as int, b & mask),
                            pc: pc_plus(old(self)@.pc, 2),
                            ..old(self)@
                        }));
                    }
                }
                Ok(())
            },
            Instruction::SkipIfKey(x) => {
                let key = self.registers[x];
                if key >= 16 {
                    return Err(Fault::KeyOutOfRange);
                }
                self.pc = self.pc + 2;
                if self.keypad[key as usize] {
                    self.pc = self.pc + 2;
                }
                Ok(())
            },
            Instruction::SkipIfNotKey(x) => {
                let key = self.registers[x];
                if key >= 16 {
                    return Err(Fault::KeyOutOfRange);
                }
                self.pc = self.pc + 2;
                if !self.keypad[key as usize] {
                    self.pc = self.pc + 2;
                }
                Ok(())
            },
            Instruction::SetToDelayTimer(x) => {
                self.pc = self.pc + 2;
                let dt = self.delay_timer;
                self.registers.set(x, dt);
                Ok(())
            },
            Instruction::GetKeyPress(x) => {
                let mut k: usize = 0;
                while k < 16
                    invariant
                        k <= 16,
                        x < 16,
                        instr == Instruction::GetKeyPress(x),
                        old(self).wf(),
                        old(self)@.pc + 1 < 4096,
                        self.wf(),
                        self@ == old(self)@,
                        forall|j: int| 0 <= j < k ==> !self@.keypad[j],
                        first_pressed(old(self)@.keypad) == first_pressed_from(
                            old(self)@.keypad,
                            k as int,
                        ),
                    decreases 16 - k,
                {
                    if self.keypad[k] {
                        self.pc = self.pc + 2;
                        self.registers.set(x, k as u8);
                        return Ok(());
                    }
                    k = k + 1;
                }
                Ok(())
            },
            Instruction::SetDelayTimer(x) => {
                self.pc = self.pc + 2;
                self.delay_timer = self.registers[x];
                Ok(())
            },
            Instruction::SetSoundTimer(x) => {
                self.pc = self.pc + 2;
                self.sound_timer = self.registers[x];
                Ok(())
            },
            _ => vstd::pervasive::unreached(),
        }
    }

    /// Applies one decoded instruction to the machine state: the exact
    /// semantics is the `step` relation. An instruction that would
    /// underflow the stack, overflow it, reach outside memory or name a
    /// key above 15 leaves the state untouched and reports its fault.
    /// Must be called at the program counter the instruction was fetched
    /// from, which a successful fetch guarantees lies inside memory.
    pub fn execute(&mut self, instr: Instruction) -> (r: Result<(), Fault>)
        requires
            old(self).wf(),
            instr_wf(instr),
            old(self)@.pc + 1 < 4096,
        ensures
            final(self).wf(),
            match r {
                Ok(()) => fault_of(old(self)@, instr) is None && step(
                    old(self)@,
                    instr,
                    final(self)@,
                ),
                Err(f) => Some(f) == fault_of(old(self)@, instr) && final(self)@ == old(self)@,
            },
    {
        match instr {
            Instruction::Return | Instruction::JumpTo(..) | Instruction::Subroutine(..) | Instruction::SkipIfRegisterEqualValue(..) | Instruction::SkipIfRegisterNotEqualValue(..) | Instruction::SkipIfRegisterEqualRegister(..) | Instruction::SkipIfRegisterNotEqualRegister(..) | Instruction::JumpRelV0(..) | Instruction::Noop => self.execute_control(instr),
            Instruction::SetRegisterToValue(..) | Instruction::AddRegisterValue(..) | Instruction::SetRegister(..) | Instruction::SetRegisterOR(..) | Instruction::SetRegisterAND(..) | Instruction::SetRegisterXOR(..) => self.execute_alu(instr),
            Instruction::AddRegisterToRegister(..) | Instruction::SubRegisterToRegister85(..) | Instruction::ShiftRight(..) | Instruction::SubRegisterToRegister87(..) | Instruction::ShiftLeft(..) => self.execute_arith(instr),
            Instruction::SetIndex(..) | Instruction::AddToIndexRegister(..) | Instruction::SetIndexToSpriteAddr(..) | Instruction::BCD(..) | Instruction::DumpRegistersTill(..) | Instruction::LoadRegistersTill(..) => self.execute_indexed(instr),
            Instruction::ClearScreen | Instruction::Draw(..) | Instruction::RandomAND(..) | Instruction::SkipIfKey(..) | Instruction::SkipIfNotKey(..) | Instruction::SetToDelayTimer(..) | Instruction::GetKeyPress(..) | Instruction::SetDelayTimer(..) | Instruction::SetSoundTimer(..) => self.execute_io(instr),
        }
    }

    /// One machine cycle: fetch the opcode at the program counter, decode
    /// it, and execute it. A fatal fetch or execution fault leaves the
    /// state untouched and reports the offending program counter, and for
    /// execution faults the offending opcode.
    pub fn cycle(&mut self) -> (r: Result<(), VmError>)
        requires
            old(self).wf(),
        ensures
            final(self).wf(),
            match r {
                Ok(()) => {
                    &&& old(self)@.pc + 1 < 4096
                    &&& fault_of(old(self)@, spec_decode(fetch16(old(self)@))) is None
                    &&& step(old(self)@, spec_decode(fetch16(old(self)@)), final(self)@)
                },
                Err(e) => match e {
                    VmError::FetchOutOfBounds(pc) => {
                        &&& pc == old(self)@.pc
                        &&& old(self)@.pc + 1 >= 4096
                        &&& final(self)@ == old(self)@
                    },
                    VmError::Exec(pc, oc, f) => {
                        &&& pc == old(self)@.pc
                        &&& old(self)@.pc + 1 < 4096
                        &&& oc == fetch16(old(self)@)
                        &&& Some(f) == fault_of(old(self)@, spec_decode(oc))
                        &&& final(self)@ == old(self)@
                    },
                },
            },
    {
        let oc = match self.fetch() {
            Ok(oc) => oc,
            Err(e) => {
                return Err(e);
            },
        };
        let instr = decode(oc);
        match self.execute(instr) {
            Ok(()) => Ok(()),
            Err(f) => Err(VmError::Exec(self.pc, oc, f)),
        }
    }
}

} // verus!
