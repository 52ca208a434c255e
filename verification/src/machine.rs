//! The machine state: memory, registers, index register, program counter,
//! display buffer, timers, call stack and keypad latch, with its
//! well-formedness invariant and the operations that do not belong to the
//! executor: construction, ROM loading, fetch, keypad updates, display
//! reads and the per-tick timer decrements.

use vstd::prelude::*;
use vstd::pervasive::VecAdditionalExecFns;

verus! {

/// A fatal state-machine violation: a malformed program drove the machine
/// into a state the instruction set gives no meaning to. These terminate
/// the run; none of them is recoverable.
#[derive(Clone, Copy, Debug, PartialEq, Eq, Structural)]
pub enum Fault {
    /// A return instruction found the call stack empty.
    StackUnderflow,
    /// A subroutine call found the call stack full.
    StackOverflow,
    /// A memory-indexed instruction reached at or past the end of memory.
    MemoryOutOfBounds,
    /// An index-register addition left the 16-bit register range.
    IndexOverflow,
    /// A keypad instruction named a key index above 15.
    KeyOutOfRange,
}

/// A fatal error of one machine cycle, identifying the offending program
/// counter, and for execution faults the offending opcode as well.
#[derive(Clone, Copy, Debug, PartialEq, Eq, Structural)]
pub enum VmError {
    /// The program counter fell outside memory at fetch time.
    FetchOutOfBounds(u16),
    /// Executing the opcode (second field) fetched at the program counter
    /// (first field) raised the fault.
    Exec(u16, u16, Fault),
}

/// A fatal configuration error, reported before the cycle loop starts.
#[derive(Clone, Copy, Debug, PartialEq, Eq, Structural)]
pub enum ConfigError {
    /// The ROM does not fit in the memory left above the program start.
    RomTooLarge,
}

/// The mathematical model of the machine state.
#[verifier::ext_equal]
pub struct MachineView {
    pub memory: Seq<u8>,
    pub registers: Seq<u8>,
    pub index: u16,
    pub pc: u16,
    pub display: Seq<bool>,
    pub delay_timer: u8,
    pub sound_timer: u8,
    pub call_stack: Seq<u16>,
    pub keypad: Seq<bool>,
    pub index_add_sets_flag: bool,
}

impl MachineView {
    /// Well-formedness: every component has its architectural size and the
    /// call stack respects its depth bound.
    pub open spec fn wf(self) -> bool {
        &&& self.memory.len() == 4096
        &&& self.registers.len() == 16
        &&& self.display.len() == 2048
        &&& self.keypad.len() == 16
        &&& self.call_stack.len() <= 16
    }
}

/// The machine state. The display is stored row-major: the pixel at
/// column `x`, row `y` is `display[y * 64 + x]`.
pub struct Chip8 {
    /// 4096 bytes; 0x000..0x200 is reserved for the interpreter and holds
    /// the font sprites at 0x50..0xA0, programs load at 0x200.
    pub memory: Vec<u8>,
    /// Sixteen 8-bit registers; register 15 doubles as the
    /// carry/borrow/collision flag.
    pub registers: Vec<u8>,
    /// The 16-bit index register used by memory-indexed instructions.
    pub index: u16,
    /// The program counter: a byte address of the next opcode.
    pub pc: u16,
    /// 64x32 pixels, row-major, true for a lit pixel.
    pub display: Vec<bool>,
    /// Countdown timer readable by programs; decremented once per tick.
    pub delay_timer: u8,
    /// Countdown timer driving the host's tone; decremented once per tick.
    pub sound_timer: u8,
    /// Return addresses of pending subroutine calls, at most 16 deep.
    pub call_stack: Vec<u16>,
    /// One pressed-flag per hexadecimal key; written by the host only.
    pub keypad: Vec<bool>,
    /// Whether the add-to-index instruction writes the overflow flag.
    /// An instruction-set extension; enabled by default.
    pub index_add_sets_flag: bool,
}

impl View for Chip8 {
    type V = MachineView;

    open spec fn view(&self) -> MachineView {
        MachineView {
            memory: self.memory@,
            registers: self.registers@,
            index: self.index,
            pc: self.pc,
            display: self.display@,
            delay_timer: self.delay_timer,
            sound_timer: self.sound_timer,
            call_stack: self.call_stack@,
            keypad: self.keypad@,
            index_add_sets_flag: self.index_add_sets_flag,
        }
    }
}

/// The font sprite data: five bytes per hexadecimal glyph, 0 through F,
/// loaded at memory address 0x50.
pub open spec fn font_seq() -> Seq<u8> {
    seq![
        0xF0u8, 0x90, 0x90, 0x90, 0xF0, // 0
        0x20, 0x60, 0x20, 0x20, 0x70, // 1
        0xF0, 0x10, 0xF0, 0x80, 0xF0, // 2
        0xF0, 0x10, 0xF0, 0x10, 0xF0, // 3
        0x90, 0x90, 0xF0, 0x10, 0x10, // 4
        0xF0, 0x80, 0xF0, 0x10, 0xF0, // 5
        0xF0, 0x80, 0xF0, 0x90, 0xF0, // 6
        0xF0, 0x10, 0x20, 0x40, 0x40, // 7
        0xF0, 0x90, 0xF0, 0x90, 0xF0, // 8
        0xF0, 0x90, 0xF0, 0x10, 0xF0, // 9
        0xF0, 0x90, 0xF0, 0x90, 0x90, // A
        0xE0, 0x90, 0xE0, 0x90, 0xE0, // B
        0xF0, 0x80, 0x80, 0x80, 0xF0, // C
        0xE0, 0x90, 0x90, 0x90, 0xE0, // D
        0xF0, 0x80, 0xF0, 0x80, 0xF0, // E
        0xF0, 0x80, 0xF0, 0x80, 0x80, // F
    ]
}

/// One decrement of a countdown timer: down by one while positive, and
/// never below zero.
pub open spec fn timer_dec(t: u8) -> u8 {
    if t > 0 {
        (t - 1) as u8
    } else {
        0u8
    }
}

/// The 16-bit big-endian opcode stored at the program counter.
pub open spec fn fetch16(v: MachineView) -> u16 {
    (v.memory[v.pc as int] * 256 + v.memory[v.pc as int + 1]) as u16
}

impl Chip8 {
    /// Well-formedness of the executable state.
    pub open spec fn wf(&self) -> bool {
        self@.wf()
    }

    /// A machine ready to run: memory zeroed but for the font sprites,
    /// registers, timers, stack, keypad and display cleared, the program
    /// counter at the program start, and the add-to-index flag extension
    /// enabled.
    pub fn new() -> (c8: Chip8)
        ensures
            c8.wf(),
            forall|k: int| 0 <= k < 80 ==> c8@.memory[0x50 + k] == font_seq()[k],
            forall|p: int| 0 <= p < 4096 && !(0x50 <= p < 0xA0) ==> c8@.memory[p] == 0,
            c8@.registers =~= Seq::new(16, |i: int| 0u8),
            c8@.index == 0,
            c8@.pc == 0x200,
            c8@.display =~= Seq::new(2048, |p: int| false),
            c8@.delay_timer == 0,
            c8@.sound_timer == 0,
            c8@.call_stack =~= Seq::<u16>::empty(),
            c8@.keypad =~= Seq::new(16, |k: int| false),
            c8@.index_add_sets_flag,
    {
        let mut c8 = Chip8 {
            memory: byte_vec(4096),
            registers: byte_vec(16),
            index: 0,
            pc: 0x200,
            display: bool_vec(2048),
            delay_timer: 0,
            sound_timer: 0,
            call_stack: Vec::new(),
            keypad: bool_vec(16),
            index_add_sets_flag: true,
        };
        c8.load_fonts();
        c8
    }

    /// Writes the font sprites into their reserved region, 0x50..0xA0,
    /// leaving the rest of memory unchanged.
    pub fn load_fonts(&mut self)
        requires
            old(self).wf(),
        ensures
            final(self).wf(),
            forall|k: int| 0 <= k < 80 ==> final(self)@.memory[0x50 + k] == font_seq()[k],
            forall|p: int|
                0 <= p < 4096 && !(0x50 <= p < 0xA0) ==> final(self)@.memory[p] == old(self)@.memory[p],
            final(self)@ == (MachineView { memory: final(self)@.memory, ..old(self)@ }),
    {
        let font: [u8; 80] = [
            0xF0, 0x90, 0x90, 0x90, 0xF0, // 0
            0x20, 0x60, 0x20, 0x20, 0x70, // 1
            0xF0, 0x10, 0xF0, 0x80, 0xF0, // 2
            0xF0, 0x10, 0xF0, 0x10, 0xF0, // 3
            0x90, 0x90, 0xF0, 0x10, 0x10, // 4
            0xF0, 0x80, 0xF0, 0x10, 0xF0, // 5
            0xF0, 0x80, 0xF0, 0x90, 0xF0, // 6
            0xF0, 0x10, 0x20, 0x40, 0x40, // 7
            0xF0, 0x90, 0xF0, 0x90, 0xF0, // 8
            0xF0, 0x90, 0xF0, 0x10, 0xF0, // 9
            0xF0, 0x90, 0xF0, 0x90, 0x90, // A
            0xE0, 0x90, 0xE0, 0x90, 0xE0, // B
            0xF0, 0x80, 0x80, 0x80, 0xF0, // C
            0xE0, 0x90, 0x90, 0x90, 0xE0, // D
            0xF0, 0x80, 0xF0, 0x80, 0xF0, // E
            0xF0, 0x80, 0xF0, 0x80, 0x80, // F
        ];
        let mut k: usize = 0;
        while k < 80
            invariant
                k <= 80,
                self.wf(),
                font@ =~= font_seq(),
                forall|j: int| 0 <= j < k ==> self@.memory[0x50 + j] == font_seq()[j],
                forall|p: int|
                    0 <= p < 4096 && !(0x50 <= p < 0x50 + k) ==> self@.memory[p] == old(
                        self,
                    )@.memory[p],
                self@ == (MachineView { memory: self@.memory, ..old(self)@ }),
            decreases 80 - k,
        {
            self.memory.set(0x50 + k, font[k]);
            k = k + 1;
        }
    }

    /// Copies a ROM image verbatim into memory starting at the program
    /// start address. Rejects an image that does not fit in the memory
    /// left above that address; nothing else about its content is checked.
    pub fn load_rom(&mut self, data: &Vec<u8>) -> (r: Result<(), ConfigError>)
        requires
            old(self).wf(),
        ensures
            final(self).wf(),
            match r {
                Ok(()) => {
                    &&& data@.len() <= 4096 - 0x200
                    &&& forall|k: int|
                        0 <= k < data@.len() ==> final(self)@.memory[0x200 + k] == data@[k]
                    &&& forall|p: int|
                        0 <= p < 4096 && !(0x200 <= p < 0x200 + data@.len())
                            ==> final(self)@.memory[p] == old(self)@.memory[p]
                    &&& final(self)@ == (MachineView { memory: final(self)@.memory, ..old(self)@ })
                },
                Err(e) => {
                    &&& e == ConfigError::RomTooLarge
                    &&& data@.len() > 4096 - 0x200
                    &&& final(self)@ == old(self)@
                },
            },
    {
        if data.len() > 4096 - 0x200 {
            return Err(ConfigError::RomTooLarge);
        }
        let mut k: usize = 0;
        while k < data.len()
            invariant
                k <= data@.len(),
                data@.len() <= 4096 - 0x200,
                self.wf(),
                forall|j: int| 0 <= j < k ==> self@.memory[0x200 + j] == data@[j],
                forall|p: int|
                    0 <= p < 4096 && !(0x200 <= p < 0x200 + k) ==> self@.memory[p] == old(
                        self,
                    )@.memory[p],
                self@ == (MachineView { memory: self@.memory, ..old(self)@ }),
            decreases data@.len() - k,
        {
            self.memory.set(0x200 + k, data[k]);
            k = k + 1;
        }
        Ok(())
    }

    /// Reads the two bytes at the program counter as one big-endian opcode.
    /// Fails fatally when the program counter or its successor lies outside
    /// memory.
    pub fn fetch(&self) -> (r: Result<u16, VmError>)
        requires
            self.wf(),
        ensures
            match r {
                Ok(oc) => self@.pc + 1 < 4096 && oc == fetch16(self@),
                Err(e) => self@.pc + 1 >= 4096 && e == VmError::FetchOutOfBounds(self@.pc),
            },
    {
        if self.pc >= 4095 {
            return Err(VmError::FetchOutOfBounds(self.pc));
        }
        let hi = self.memory[self.pc as usize];
        let lo = self.memory[self.pc as usize + 1];
        Ok((hi as u16) * 256 + (lo as u16))
    }

    /// Records a host key-down or key-up event in the keypad latch.
    pub fn set_key(&mut self, key: usize, pressed: bool)
        requires
            old(self).wf(),
            key < 16,
        ensures
            final(self).wf(),
            final(self)@ == (MachineView {
                keypad: old(self)@.keypad.update(key as int, pressed),
                ..old(self)@
            }),
    {
        self.keypad.set(key, pressed);
    }

    /// Reads one display pixel, for the host's renderer.
    pub fn pixel(&self, x: usize, y: usize) -> (on: bool)
        requires
            self.wf(),
            x < 64,
            y < 32,
        ensures
            on == self@.display[y * 64 + x],
    {
        self.display[y * 64 + x]
    }

    /// Resets every display pixel to off.
    pub fn clear_screen(&mut self)
        requires
            old(self).wf(),
        ensures
            final(self).wf(),
            final(self)@ == (MachineView {
                display: Seq::new(2048, |p: int| false),
                ..old(self)@
            }),
    {
        let mut p: usize = 0;
        while p < 2048
            invariant
                p <= 2048,
                self.wf(),
                self@ == (MachineView { display: self@.display, ..old(self)@ }),
                forall|q: int| 0 <= q < p ==> !self@.display[q],
            decreases 2048 - p,
        {
            self.display.set(p, false);
            p = p + 1;
        }
        proof {
            assert(self@.display =~= Seq::new(2048, |p: int| false));
        }
    }

    /// One tick of the delay timer: decrement while positive, never below
    /// zero.
    pub fn update_delay_timer(&mut self)
        requires
            old(self).wf(),
        ensures
            final(self).wf(),
            final(self)@ == (MachineView { delay_timer: timer_dec(old(self)@.delay_timer), ..old(self)@ }),
    {
        if self.delay_timer > 0 {
            self.delay_timer = self.delay_timer - 1;
        }
    }

    /// One tick of the sound timer: decrement while positive, never below
    /// zero. The host observes this timer's positive/zero transitions to
    /// start and stop its tone; the core carries no audio logic.
    pub fn update_sound_timer(&mut self)
        requires
            old(self).wf(),
        ensures
            final(self).wf(),
            final(self)@ == (MachineView { sound_timer: timer_dec(old(self)@.sound_timer), ..old(self)@ }),
    {
        if self.sound_timer > 0 {
            self.sound_timer = self.sound_timer - 1;
        }
    }
}

/// A vector of `n` zero bytes.
fn byte_vec(n: usize) -> (v: Vec<u8>)
    ensures
        v@ =~= Seq::new(n as nat, |i: int| 0u8),
{
    let mut v: Vec<u8> = Vec::new();
    let mut k: usize = 0;
    while k < n
        invariant
            k <= n,
            v@ =~= Seq::new(k as nat, |i: int| 0u8),
        decreases n - k,
    {
        v.push(0);
        k = k + 1;
    }
    v
}

/// A vector of `n` cleared flags.
fn bool_vec(n: usize) -> (v: Vec<bool>)
    ensures
        v@ =~= Seq::new(n as nat, |i: int| false),
{
    let mut v: Vec<bool> = Vec::new();
    let mut k: usize = 0;
    while k < n
        invariant
            k <= n,
            v@ =~= Seq::new(k as nat, |i: int| false),
        decreases n - k,
    {
        v.push(false);
        k = k + 1;
    }
    v
}

} // verus!
