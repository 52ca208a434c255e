//! A CHIP-8 virtual machine core: a 4096-byte memory, sixteen 8-bit
//! registers, an index register, a program counter, a bounded call stack,
//! two countdown timers, a 16-key keypad latch and a 64x32 monochrome
//! display, driven by a fetch-decode-execute cycle.
//!
//! The crate holds the machine state, the decoder, the executor and the
//! timer discipline. Rendering the display, producing sound and reading
//! host key events are left to the embedding program, which talks to the
//! core through plain reads and writes of the machine state.

pub mod decode;
pub mod draw;
pub mod exec;
pub mod laws;
pub mod instr;
pub mod machine;

use vstd::prelude::*;

verus! {

/// Width of the display in pixels.
pub const DISPLAY_WIDTH: usize = 64;

/// Height of the display in pixels.
pub const DISPLAY_HEIGHT: usize = 32;

/// Size of the machine's memory in bytes.
pub const MEMORY_SIZE: usize = 4096;

/// Address at which loaded programs start.
pub const PROGRAM_START: usize = 0x200;

/// Address of the first font sprite in memory.
pub const FONT_START: usize = 0x50;

/// Depth of the call stack.
pub const STACK_DEPTH: usize = 16;

} // verus!
