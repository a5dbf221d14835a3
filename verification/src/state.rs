//! The mathematical model of the machine: an abstract state record,
//! its well-formedness condition, and the initial state.

use vstd::prelude::*;

verus! {

/// Size of the emulated memory in bytes; addresses are 12 bits wide.
pub const RAM_SIZE: usize = 4096;
/// Width of the display in pixels.
pub const SCREEN_WIDTH: usize = 64;
/// Height of the display in pixels.
pub const SCREEN_HEIGHT: usize = 32;
/// Capacity of the call stack, in return addresses.
pub const STACK_DEPTH: usize = 12;
/// Number of general-purpose registers.
pub const NUM_REGISTERS: usize = 16;
/// Number of keypad keys.
pub const NUM_KEYS: usize = 16;
/// Address at which a loaded program begins, and the initial program counter.
pub const ADDR_START: u16 = 0x200;
/// Number of bytes occupied by the font sprite table at address 0.
pub const FONT_BYTES: usize = 80;

/// Abstract state of the virtual machine, used by every contract.
#[verifier::ext_equal]
pub ghost struct VmState {
    pub mem: Seq<u8>,
    pub regs: Seq<u8>,
    pub index: u16,
    pub pc: u16,
    pub stack: Seq<u16>,
    pub sp: u8,
    pub delay: u8,
    pub sound: u8,
    pub display: Seq<bool>,
    pub keys: Seq<bool>,
}

impl VmState {
    /// Shape of a valid state: fixed buffer sizes, a 12-bit program
    /// counter, a stack pointer within capacity, and in-range return
    /// addresses on the stack.
    pub open spec fn wf(self) -> bool {
        &&& self.mem.len() == RAM_SIZE
        &&& self.regs.len() == NUM_REGISTERS
        &&& self.stack.len() == STACK_DEPTH
        &&& self.display.len() == SCREEN_WIDTH * SCREEN_HEIGHT
        &&& self.keys.len() == NUM_KEYS
        &&& self.pc < RAM_SIZE
        &&& self.sp <= STACK_DEPTH
        &&& forall|i: int| 0 <= i < STACK_DEPTH ==> self.stack[i] < RAM_SIZE
    }
}

/// The font sprite table: 16 glyphs for the hexadecimal digits,
/// 5 bytes per glyph.
pub open spec fn font_seq() -> Seq<u8> {
    seq![
        0xF0u8, 0x90, 0x90, 0x90, 0xF0, // 0
        0x20, 0x60, 0x20, 0x20, 0x70, // 1
        0xF0, 0x10, 0xF0, 0x80, 0xF0, // 2
        0xF0, 0x10, 0xF0, 0x10, 0xF0, // 3
        0x90, 0x90, 0xF0, 0x10, 0x10, // 4
        0xF0, 0x80, 0xF0, 0x10, 0xF0, // 5
        0xF0, 0x80, 0xF0, 0x90, 0xF0, // 6
        0xF0, 0x10, 0x20, 0x40, 0x40, // 7
        0xF0, 0x90, 0xF0, 0x90, 0xF0, // 8
        0xF0, 0x90, 0xF0, 0x10, 0xF0, // 9
        0xF0, 0x90, 0xF0, 0x90, 0x90, // A
        0xE0, 0x90, 0xE0, 0x90, 0xE0, // B
        0xF0, 0x80, 0x80, 0x80, 0xF0, // C
        0xE0, 0x90, 0x90, 0x90, 0xE0, // D
        0xF0, 0x80, 0xF0, 0x80, 0xF0, // E
        0xF0, 0x80, 0xF0, 0x80, 0x80, // F
    ]
}

/// Memory at construction and after a reset: the font table in the
/// first 80 bytes, zero everywhere else.
pub open spec fn mem_init() -> Seq<u8> {
    Seq::new(RAM_SIZE as nat, |i: int| if i < FONT_BYTES { font_seq()[i] } else { 0u8 })
}

/// The machine's state at construction and after a reset.
pub open spec fn init_state() -> VmState {
    VmState {
        mem: mem_init(),
        regs: Seq::new(NUM_REGISTERS as nat, |i: int| 0u8),
        index: 0,
        pc: ADDR_START,
        stack: Seq::new(STACK_DEPTH as nat, |i: int| 0u16),
        sp: 0,
        delay: 0,
        sound: 0,
        display: Seq::new((SCREEN_WIDTH * SCREEN_HEIGHT) as nat, |i: int| false),
        keys: Seq::new(NUM_KEYS as nat, |i: int| false),
    }
}

/// Memory after a program image has been copied in at the entry point.
pub open spec fn sp_load_mem(mem: Seq<u8>, data: Seq<u8>) -> Seq<u8> {
    Seq::new(
        mem.len(),
        |i: int| if ADDR_START <= i < ADDR_START + data.len() {
            data[i - ADDR_START]
        } else {
            mem[i]
        },
    )
}

/// The program counter advanced by one instruction, wrapping within
/// the 12-bit address space.
pub open spec fn sp_next_pc(pc: u16) -> u16 {
    (((pc as int) + 2) % (RAM_SIZE as int)) as u16
}

/// The two bytes at the program counter assembled big-endian into an
/// instruction word.
pub open spec fn sp_fetch_word(s: VmState) -> u16 {
    (s.mem[s.pc as int] * 256 + s.mem[((s.pc as int) + 1) % (RAM_SIZE as int)]) as u16
}

} // verus!
