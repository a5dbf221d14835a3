//! The machine itself: the owned state, its abstract view, construction
//! and reset, program loading, and the small state operations that the
//! instruction handlers are built from.

use vstd::prelude::*;
use crate::state::{
    sp_load_mem, sp_next_pc, sp_fetch_word,
    VmState, font_seq, mem_init, init_state, RAM_SIZE, SCREEN_WIDTH, SCREEN_HEIGHT, STACK_DEPTH,
    NUM_REGISTERS, NUM_KEYS, ADDR_START, FONT_BYTES,
};

verus! {

/// The CHIP-8 virtual machine.  All emulated state lives here; one call
/// to [`VirtualMachine::execute`] runs one fetch-decode-execute cycle.
pub struct VirtualMachine {
    memory: Vec<u8>,
    registers: Vec<u8>,
    reg_i: u16,
    reg_pc: u16,
    stack: Vec<u16>,
    reg_stack_ptr: u8,
    delay_timer: u8,
    sound_timer: u8,
    graphics: Vec<bool>,
    keypad: Vec<bool>,
}

impl View for VirtualMachine {
    type V = VmState;

    closed spec fn view(&self) -> VmState {
        VmState {
            mem: self.memory@,
            regs: self.registers@,
            index: self.reg_i,
            pc: self.reg_pc,
            stack: self.stack@,
            sp: self.reg_stack_ptr,
            delay: self.delay_timer,
            sound: self.sound_timer,
            display: self.graphics@,
            keys: self.keypad@,
        }
    }
}

/// Builds the font sprite table as a byte vector.
fn font_table() -> (v: Vec<u8>)
    ensures
        v@ == font_seq(),
{
    let mut v: Vec<u8> = Vec::new();
    v.push(0xF0); v.push(0x90); v.push(0x90); v.push(0x90); v.push(0xF0); // 0
    v.push(0x20); v.push(0x60); v.push(0x20); v.push(0x20); v.push(0x70); // 1
    v.push(0xF0); v.push(0x10); v.push(0xF0); v.push(0x80); v.push(0xF0); // 2
    v.push(0xF0); v.push(0x10); v.push(0xF0); v.push(0x10); v.push(0xF0); // 3
    v.push(0x90); v.push(0x90); v.push(0xF0); v.push(0x10); v.push(0x10); // 4
    v.push(0xF0); v.push(0x80); v.push(0xF0); v.push(0x10); v.push(0xF0); // 5
    v.push(0xF0); v.push(0x80); v.push(0xF0); v.push(0x90); v.push(0xF0); // 6
    v.push(0xF0); v.push(0x10); v.push(0x20); v.push(0x40); v.push(0x40); // 7
    v.push(0xF0); v.push(0x90); v.push(0xF0); v.push(0x90); v.push(0xF0); // 8
    v.push(0xF0); v.push(0x90); v.push(0xF0); v.push(0x10); v.push(0xF0); // 9
    v.push(0xF0); v.push(0x90); v.push(0xF0); v.push(0x90); v.push(0x90); // A
    v.push(0xE0); v.push(0x90); v.push(0xE0); v.push(0x90); v.push(0xE0); // B
    v.push(0xF0); v.push(0x80); v.push(0x80); v.push(0x80); v.push(0xF0); // C
    v.push(0xE0); v.push(0x90); v.push(0x90); v.push(0x90); v.push(0xE0); // D
    v.push(0xF0); v.push(0x80); v.push(0xF0); v.push(0x80); v.push(0xF0); // E
    v.push(0xF0); v.push(0x80); v.push(0xF0); v.push(0x80); v.push(0x80); // F
    proof {
        assert(v@ =~= font_seq());
    }
    v
}

/// Builds the initial memory image: the font table followed by zeroes.
fn init_memory() -> (m: Vec<u8>)
    ensures
        m@ == mem_init(),
{
    let fonts = font_table();
    let mut m: Vec<u8> = vec![0u8; RAM_SIZE];
    let mut i: usize = 0;
    while i < FONT_BYTES
        invariant
            i <= FONT_BYTES,
            fonts@ == font_seq(),
            m@.len() == RAM_SIZE,
            forall|j: int| 0 <= j < i ==> m@[j] == font_seq()[j],
            forall|j: int| i <= j < RAM_SIZE ==> m@[j] == 0u8,
        decreases FONT_BYTES - i,
    {
        m[i] = fonts[i];
        i += 1;
    }
    proof {
        assert(m@ =~= mem_init());
    }
    m
}

impl VirtualMachine {
    /// A fresh machine: font table installed, program counter at the
    /// program entry point, everything else zeroed.
    pub fn new() -> (vm: Self)
        ensures
            vm@ == init_state(),
            vm@.wf(),
    {
        let vm = VirtualMachine {
            memory: init_memory(),
            registers: vec![0u8; NUM_REGISTERS],
            reg_i: 0,
            reg_pc: ADDR_START,
            stack: vec![0u16; STACK_DEPTH],
            reg_stack_ptr: 0,
            delay_timer: 0,
            sound_timer: 0,
            graphics: vec![false; SCREEN_WIDTH * SCREEN_HEIGHT],
            keypad: vec![false; NUM_KEYS],
        };
        proof {
            assert(vm@.regs =~= init_state().regs);
            assert(vm@.stack =~= init_state().stack);
            assert(vm@.display =~= init_state().display);
            assert(vm@.keys =~= init_state().keys);
            assert(vm@ =~= init_state());
        }
        vm
    }

    /// Returns the machine to its initial state: memory zeroed except
    /// for the font table, registers, stack, timers, keys and display
    /// cleared, program counter back at the entry point.
    pub fn reset(&mut self)
        ensures
            final(self)@ == init_state(),
            final(self)@.wf(),
    {
        self.memory = init_memory();
        self.registers = vec![0u8; NUM_REGISTERS];
        self.reg_i = 0;
        self.reg_pc = ADDR_START;
        self.stack = vec![0u16; STACK_DEPTH];
        self.reg_stack_ptr = 0;
        self.delay_timer = 0;
        self.sound_timer = 0;
        self.graphics = vec![false; SCREEN_WIDTH * SCREEN_HEIGHT];
        self.keypad = vec![false; NUM_KEYS];
        proof {
            assert(self@.regs =~= init_state().regs);
            assert(self@.stack =~= init_state().stack);
            assert(self@.display =~= init_state().display);
            assert(self@.keys =~= init_state().keys);
            assert(self@ =~= init_state());
        }
    }
}

impl VirtualMachine {
    /// Copies a program image into memory starting at the entry point.
    /// The caller guarantees that the image fits below the end of memory.
    pub fn load_rom(&mut self, rom_data: &[u8])
        requires
            old(self)@.wf(),
            rom_data@.len() <= RAM_SIZE - ADDR_START,
        ensures
            final(self)@ == (VmState {
                mem: sp_load_mem(old(self)@.mem, rom_data@),
                ..old(self)@
            }),
            final(self)@.wf(),
    {
        let start = ADDR_START as usize;
        let mut i: usize = 0;
        while i < rom_data.len()
            invariant
                i <= rom_data@.len(),
                rom_data@.len() <= RAM_SIZE - ADDR_START,
                start == ADDR_START,
                self@ == (VmState { mem: self@.mem, ..old(self)@ }),
                self@.mem.len() == RAM_SIZE,
                forall|j: int| start <= j < start + i ==> self@.mem[j] == rom_data@[j - start],
                forall|j: int| 0 <= j < RAM_SIZE && !(start <= j < start + i)
                    ==> self@.mem[j] == old(self)@.mem[j],
            decreases rom_data@.len() - i,
        {
            self.memory[start + i] = rom_data[i];
            i += 1;
        }
        proof {
            assert(self@.mem =~= sp_load_mem(old(self)@.mem, rom_data@));
            assert(self@ =~= (VmState { mem: sp_load_mem(old(self)@.mem, rom_data@), ..old(self)@ }));
        }
    }

    /// Reads the byte at an address; addresses are taken modulo the
    /// memory size, so every read is in range.
    pub fn read(&self, addr: u16) -> (b: u8)
        requires
            self@.wf(),
        ensures
            b == self@.mem[addr as int % (RAM_SIZE as int)],
    {
        self.memory[(addr as usize) % RAM_SIZE]
    }

    /// Writes a byte at an address, taken modulo the memory size.
    pub fn write(&mut self, addr: u16, data: u8)
        requires
            old(self)@.wf(),
        ensures
            final(self)@ == (VmState {
                mem: old(self)@.mem.update(addr as int % (RAM_SIZE as int), data),
                ..old(self)@
            }),
            final(self)@.wf(),
    {
        let a = (addr as usize) % RAM_SIZE;
        self.memory[a] = data;
        proof {
            assert(self@ =~= (VmState {
                mem: old(self)@.mem.update(addr as int % (RAM_SIZE as int), data),
                ..old(self)@
            }));
        }
    }

    /// Read-only view of the pixel buffer, row-major, length
    /// width x height.
    pub fn get_display(&self) -> (d: &[bool])
        ensures
            d@ == self@.display,
    {
        self.graphics.as_slice()
    }

    /// State of the single pixel at the given coordinates.
    pub fn get_display_pixel(&self, pos_x: usize, pos_y: usize) -> (p: bool)
        requires
            self@.wf(),
            pos_x < SCREEN_WIDTH,
            pos_y < SCREEN_HEIGHT,
        ensures
            p == self@.display[pos_y * SCREEN_WIDTH + pos_x],
    {
        self.graphics[pos_y * SCREEN_WIDTH + pos_x]
    }

    /// Records a key press or release from the host.
    pub fn set_key(&mut self, key: usize, val: bool)
        requires
            old(self)@.wf(),
            key < NUM_KEYS,
        ensures
            final(self)@ == (VmState {
                keys: old(self)@.keys.update(key as int, val),
                ..old(self)@
            }),
            final(self)@.wf(),
    {
        self.keypad[key] = val;
        proof {
            assert(self@ =~= (VmState {
                keys: old(self)@.keys.update(key as int, val),
                ..old(self)@
            }));
        }
    }

    /// Value of a general-purpose register.
    pub fn get_register(&self, reg: u8) -> (v: u8)
        requires
            self@.wf(),
            reg < NUM_REGISTERS,
        ensures
            v == self@.regs[reg as int],
    {
        self.registers[reg as usize]
    }

    /// Stores a value into a general-purpose register.
    pub fn set_register(&mut self, reg: u8, val: u8)
        requires
            old(self)@.wf(),
            reg < NUM_REGISTERS,
        ensures
            final(self)@ == (VmState {
                regs: old(self)@.regs.update(reg as int, val),
                ..old(self)@
            }),
            final(self)@.wf(),
    {
        self.registers[reg as usize] = val;
        proof {
            assert(self@ =~= (VmState {
                regs: old(self)@.regs.update(reg as int, val),
                ..old(self)@
            }));
        }
    }

    /// Current program counter.
    pub fn get_program_counter(&self) -> (pc: u16)
        ensures
            pc == self@.pc,
    {
        self.reg_pc
    }

    /// Current value of the index register.
    pub fn get_index_register(&self) -> (i: u16)
        ensures
            i == self@.index,
    {
        self.reg_i
    }

    /// Sets the index register.
    pub fn set_index_register(&mut self, val: u16)
        requires
            old(self)@.wf(),
        ensures
            final(self)@ == (VmState { index: val, ..old(self)@ }),
            final(self)@.wf(),
    {
        self.reg_i = val;
        proof {
            assert(self@ =~= (VmState { index: val, ..old(self)@ }));
        }
    }

    /// Current value of the delay timer.
    pub fn get_delay_timer(&self) -> (t: u8)
        ensures
            t == self@.delay,
    {
        self.delay_timer
    }

    /// Current value of the sound timer.
    pub fn get_sound_timer(&self) -> (t: u8)
        ensures
            t == self@.sound,
    {
        self.sound_timer
    }

    /// Host-side timer tick: decrements both timers if nonzero.  The
    /// instruction executor itself never decrements them.
    pub fn tick_timers(&mut self)
        requires
            old(self)@.wf(),
        ensures
            final(self)@ == (VmState {
                delay: (if old(self)@.delay > 0 { (old(self)@.delay - 1) as u8 } else { 0u8 }),
                sound: (if old(self)@.sound > 0 { (old(self)@.sound - 1) as u8 } else { 0u8 }),
                ..old(self)@
            }),
            final(self)@.wf(),
    {
        if self.delay_timer > 0 {
            self.delay_timer = self.delay_timer - 1;
        }
        if self.sound_timer > 0 {
            self.sound_timer = self.sound_timer - 1;
        }
        proof {
            assert(self@ =~= (VmState {
                delay: (if old(self)@.delay > 0 { (old(self)@.delay - 1) as u8 } else { 0u8 }),
                sound: (if old(self)@.sound > 0 { (old(self)@.sound - 1) as u8 } else { 0u8 }),
                ..old(self)@
            }));
        }
    }
}

// Internal operations the instruction handlers are built from.
impl VirtualMachine {
    /// Pushes a return address; the caller has checked for room.
    pub(crate) fn push_to_stack(&mut self, address: u16)
        requires
            old(self)@.wf(),
            old(self)@.sp < STACK_DEPTH,
            address < RAM_SIZE,
        ensures
            final(self)@ == (VmState {
                stack: old(self)@.stack.update(old(self)@.sp as int, address),
                sp: (old(self)@.sp + 1) as u8,
                ..old(self)@
            }),
            final(self)@.wf(),
    {
        let sp = self.reg_stack_ptr as usize;
        self.stack[sp] = address;
        self.reg_stack_ptr = self.reg_stack_ptr + 1;
        proof {
            assert(self@ =~= (VmState {
                stack: old(self)@.stack.update(old(self)@.sp as int, address),
                sp: (old(self)@.sp + 1) as u8,
                ..old(self)@
            }));
        }
    }

    /// Pops the most recent return address; the caller has checked that
    /// the stack is not empty.
    pub(crate) fn pop_from_stack(&mut self) -> (address: u16)
        requires
            old(self)@.wf(),
            old(self)@.sp > 0,
        ensures
            address == old(self)@.stack[old(self)@.sp - 1],
            address < RAM_SIZE,
            final(self)@ == (VmState { sp: (old(self)@.sp - 1) as u8, ..old(self)@ }),
            final(self)@.wf(),
    {
        self.reg_stack_ptr = self.reg_stack_ptr - 1;
        let address = self.stack[self.reg_stack_ptr as usize];
        proof {
            assert(self@ =~= (VmState { sp: (old(self)@.sp - 1) as u8, ..old(self)@ }));
        }
        address
    }

    /// Sets the program counter; the new value is in the address space.
    pub(crate) fn set_pc(&mut self, pc: u16)
        requires
            old(self)@.wf(),
            pc < RAM_SIZE,
        ensures
            final(self)@ == (VmState { pc: pc, ..old(self)@ }),
            final(self)@.wf(),
    {
        self.reg_pc = pc;
        proof {
            assert(self@ =~= (VmState { pc: pc, ..old(self)@ }));
        }
    }

    /// Writes the carry/borrow/collision flag register.
    pub(crate) fn set_vf(&mut self, v: bool)
        requires
            old(self)@.wf(),
        ensures
            final(self)@ == (VmState {
                regs: old(self)@.regs.update(0xF, if v { 1u8 } else { 0u8 }),
                ..old(self)@
            }),
            final(self)@.wf(),
    {
        if v {
            self.registers[0xF] = 0x1;
        } else {
            self.registers[0xF] = 0;
        }
        proof {
            assert(self@ =~= (VmState {
                regs: old(self)@.regs.update(0xF, if v { 1u8 } else { 0u8 }),
                ..old(self)@
            }));
        }
    }

    /// State of one key.
    pub(crate) fn key(&self, k: u8) -> (pressed: bool)
        requires
            self@.wf(),
            k < NUM_KEYS,
        ensures
            pressed == self@.keys[k as int],
    {
        self.keypad[k as usize]
    }

    /// Sets the delay timer.
    pub(crate) fn set_delay(&mut self, val: u8)
        requires
            old(self)@.wf(),
        ensures
            final(self)@ == (VmState { delay: val, ..old(self)@ }),
            final(self)@.wf(),
    {
        self.delay_timer = val;
        proof {
            assert(self@ =~= (VmState { delay: val, ..old(self)@ }));
        }
    }

    /// Sets the sound timer.
    pub(crate) fn set_sound(&mut self, val: u8)
        requires
            old(self)@.wf(),
        ensures
            final(self)@ == (VmState { sound: val, ..old(self)@ }),
            final(self)@.wf(),
    {
        self.sound_timer = val;
        proof {
            assert(self@ =~= (VmState { sound: val, ..old(self)@ }));
        }
    }

    /// Replaces the pixel buffer with an all-dark one.
    pub(crate) fn clear_graphics(&mut self)
        requires
            old(self)@.wf(),
        ensures
            final(self)@ == (VmState {
                display: Seq::new((SCREEN_WIDTH * SCREEN_HEIGHT) as nat, |i: int| false),
                ..old(self)@
            }),
            final(self)@.wf(),
    {
        self.graphics = vec![false; SCREEN_WIDTH * SCREEN_HEIGHT];
        proof {
            assert(self@.display =~= Seq::new((SCREEN_WIDTH * SCREEN_HEIGHT) as nat, |i: int| false));
            assert(self@ =~= (VmState {
                display: Seq::new((SCREEN_WIDTH * SCREEN_HEIGHT) as nat, |i: int| false),
                ..old(self)@
            }));
        }
    }

    /// Reads one pixel by flat index.
    pub(crate) fn pixel(&self, idx: usize) -> (p: bool)
        requires
            self@.wf(),
            idx < SCREEN_WIDTH * SCREEN_HEIGHT,
        ensures
            p == self@.display[idx as int],
    {
        self.graphics[idx]
    }

    /// Writes one pixel by flat index.
    pub(crate) fn set_pixel(&mut self, idx: usize, val: bool)
        requires
            old(self)@.wf(),
            idx < SCREEN_WIDTH * SCREEN_HEIGHT,
        ensures
            final(self)@ == (VmState {
                display: old(self)@.display.update(idx as int, val),
                ..old(self)@
            }),
            final(self)@.wf(),
    {
        self.graphics[idx] = val;
        proof {
            assert(self@ =~= (VmState {
                display: old(self)@.display.update(idx as int, val),
                ..old(self)@
            }));
        }
    }

    /// Current call-stack depth.
    pub fn get_stack_pointer(&self) -> (sp: u8)
        ensures
            sp == self@.sp,
    {
        self.reg_stack_ptr
    }

    /// Reads the byte at an in-range memory index.
    pub(crate) fn mem_read_idx(&self, a: usize) -> (b: u8)
        requires
            self@.wf(),
            a < RAM_SIZE,
        ensures
            b == self@.mem[a as int],
    {
        self.memory[a]
    }

    /// Writes the byte at an in-range memory index.
    pub(crate) fn mem_write_idx(&mut self, a: usize, data: u8)
        requires
            old(self)@.wf(),
            a < RAM_SIZE,
        ensures
            final(self)@ == (VmState { mem: old(self)@.mem.update(a as int, data), ..old(self)@ }),
            final(self)@.wf(),
    {
        self.memory[a] = data;
        proof {
            assert(self@ =~= (VmState {
                mem: old(self)@.mem.update(a as int, data),
                ..old(self)@
            }));
        }
    }

    /// Reads the two instruction bytes at the program counter,
    /// assembles them big-endian, and advances the counter by two,
    /// wrapping within the address space.
    pub fn fetch(&mut self) -> (w: u16)
        requires
            old(self)@.wf(),
        ensures
            w == sp_fetch_word(old(self)@),
            final(self)@ == (VmState { pc: sp_next_pc(old(self)@.pc), ..old(self)@ }),
            final(self)@.wf(),
    {
        let hi = self.read(self.reg_pc);
        let lo = self.read(self.reg_pc + 1);
        self.reg_pc = (self.reg_pc + 2) % (RAM_SIZE as u16);
        proof {
            assert(self@ =~= (VmState { pc: sp_next_pc(old(self)@.pc), ..old(self)@ }));
        }
        (hi as u16) * 256 + (lo as u16)
    }
}

impl Default for VirtualMachine {
    fn default() -> (vm: Self)
        ensures
            vm@ == init_state(),
            vm@.wf(),
    {
        VirtualMachine::new()
    }
}

} // verus!
