//! Laws of the state machine that relate several instructions or ticks:
//! the call/return round trip, the key-wait stall and its release, and
//! the involution of drawing the same sprite twice.

use vstd::prelude::*;
use crate::draw::{lemma_draw_twice, pixel_index, sprite_bit};
use crate::exec::{first_pressed_from, pc_plus, step};
use crate::instr::Instruction;
use crate::machine::MachineView;

verus! {

/// No key at or above `k` is pressed, so the scan from `k` finds none.
proof fn lemma_first_pressed_none(keypad: Seq<bool>, k: int)
    requires
        keypad.len() == 16,
        0 <= k <= 16,
        forall|j: int| k <= j < 16 ==> !keypad[j],
    ensures
        first_pressed_from(keypad, k) == 16,
    decreases 16 - k,
{
    if k < 16 {
        lemma_first_pressed_none(keypad, k + 1);
    }
}

/// `key` is pressed and nothing below it is, so the scan from `k` finds
/// exactly `key`.
proof fn lemma_first_pressed_at(keypad: Seq<bool>, k: int, key: int)
    requires
        keypad.len() == 16,
        0 <= k <= key < 16,
        keypad[key],
        forall|j: int| k <= j < key ==> !keypad[j],
    ensures
        first_pressed_from(keypad, k) == key,
    decreases key - k,
{
    if k < key {
        lemma_first_pressed_at(keypad, k + 1, key);
    }
}

/// Calling a subroutine and returning from it resumes execution at the
/// instruction after the call, with every other part of the state, the
/// call stack included, exactly as it was.
pub proof fn lemma_call_return(s: MachineView, t: MachineView, u: MachineView, addr: u16)
    requires
        s.wf(),
        s.pc + 1 < 4096,
        step(s, Instruction::Subroutine(addr), t),
        step(t, Instruction::Return, u),
    ensures
        t.pc == addr,
        u.pc == s.pc + 2,
        u == (MachineView { pc: pc_plus(s.pc, 2), ..s }),
{
    assert(u.call_stack =~= s.call_stack);
    assert(u =~= (MachineView { pc: pc_plus(s.pc, 2), ..s }));
}

/// With no key pressed, a key-wait tick leaves the machine exactly as it
/// was: the program counter does not advance and no register changes, so
/// any number of further ticks leaves it unchanged too.
pub proof fn lemma_key_wait_stall(s: MachineView, t: MachineView, x: usize)
    requires
        s.wf(),
        x < 16,
        forall|k: int| 0 <= k < 16 ==> !s.keypad[k],
        step(s, Instruction::GetKeyPress(x), t),
    ensures
        t == s,
{
    lemma_first_pressed_none(s.keypad, 0);
}

/// With `key` the lowest pressed key, a key-wait tick advances the
/// program counter by two and stores `key` in the destination register.
pub proof fn lemma_key_wait_press(s: MachineView, t: MachineView, x: usize, key: usize)
    requires
        s.wf(),
        x < 16,
        key < 16,
        s.keypad[key as int],
        forall|j: int| 0 <= j < key ==> !s.keypad[j],
        step(s, Instruction::GetKeyPress(x), t),
    ensures
        t == (MachineView {
            registers: s.registers.update(x as int, key as u8),
            pc: pc_plus(s.pc, 2),
            ..s
        }),
{
    lemma_first_pressed_at(s.keypad, 0, key as int);
}

/// Drawing the same sprite at the same location twice restores the prior
/// display, and the second draw reports a collision exactly when the
/// first draw turned some pixel on. The coordinate registers must not be
/// the flag register, which the first draw overwrites.
pub proof fn lemma_draw_twice_restores(
    s: MachineView,
    t: MachineView,
    u: MachineView,
    x: usize,
    y: usize,
    h: u8,
)
    requires
        s.wf(),
        x < 15,
        y < 15,
        h < 16,
        step(s, Instruction::Draw(x, y, h), t),
        step(t, Instruction::Draw(x, y, h), u),
    ensures
        u.display =~= s.display,
        u.pc == pc_plus(pc_plus(s.pc, 2), 2),
        (u.registers[15] == 1) <==> (exists|i: int, j: int|
            0 <= i < h && 0 <= j < 8 && #[trigger] sprite_bit(s.memory[s.index + i], j)
                && !s.display[pixel_index(
                (s.registers[x as int] + j) % 64,
                (s.registers[y as int] + i) % 32,
            )]),
{
    lemma_draw_twice(
        s.display,
        s.memory,
        s.index as int,
        s.registers[x as int] as int,
        s.registers[y as int] as int,
        h as int,
    );
}

} // verus!
