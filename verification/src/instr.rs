//! The instruction handlers.  Each one is called after the fetch has
//! advanced the program counter, and realizes exactly the transform of
//! the same name in the instruction semantics.

use vstd::prelude::*;
use crate::machine::VirtualMachine;
use crate::state::{VmState, sp_next_pc, RAM_SIZE, NUM_REGISTERS, NUM_KEYS, STACK_DEPTH};
use crate::step::{
    sp_sys_call, sp_return, sp_clear_display, sp_jump, sp_skip_if, sp_load_imm, sp_add_imm,
    sp_alu_assign, sp_alu_or, sp_alu_and, sp_alu_xor, sp_alu_add, sp_alu_sub, sp_alu_shr,
    sp_alu_rsub, sp_alu_shl, sp_set_index, sp_jump_offset, sp_random, sp_get_delay,
    sp_store_delay, sp_store_sound, sp_add_index, sp_font_index, sp_bcd, sp_key_wait,
    any_key_pressed, lemma_first_pressed, sp_store_regs, sp_load_regs,
    lemma_dist_of_offset, lemma_offset_of_dist, sp_dispatch, spec_step,
};
use crate::rng::random_byte;

verus! {

#[allow(non_snake_case)]
impl VirtualMachine {
    /// Advances the program counter by one extra instruction,
    /// realizing a taken skip.
    fn skip_next(&mut self)
        requires
            old(self)@.wf(),
        ensures
            final(self)@ == (VmState { pc: sp_next_pc(old(self)@.pc), ..old(self)@ }),
            final(self)@.wf(),
    {
        let pc = self.get_program_counter();
        self.set_pc((pc + 2) % (RAM_SIZE as u16));
    }

    /// Machine-language call at address NNN, treated as a subroutine
    /// call; with the stack full the call is rejected.
    pub fn inst_0NNN(&mut self, nnn: u16)
        requires
            old(self)@.wf(),
            nnn < RAM_SIZE,
        ensures
            final(self)@ == sp_sys_call(old(self)@, nnn),
            final(self)@.wf(),
    {
        if self.get_stack_pointer() < STACK_DEPTH as u8 {
            let pc = self.get_program_counter();
            self.push_to_stack(pc);
            self.set_pc(nnn);
        }
    }

    /// Clear the screen.
    pub fn inst_00E0(&mut self)
        requires
            old(self)@.wf(),
        ensures
            final(self)@ == sp_clear_display(old(self)@),
            final(self)@.display =~= Seq::new(old(self)@.display.len(), |i: int| false),
            final(self)@.wf(),
    {
        self.clear_graphics();
    }

    /// Return from a subroutine; with the stack empty the return is
    /// rejected.
    pub fn inst_00EE(&mut self)
        requires
            old(self)@.wf(),
        ensures
            final(self)@ == sp_return(old(self)@),
            final(self)@.wf(),
    {
        if self.get_stack_pointer() > 0 {
            let addr = self.pop_from_stack();
            self.set_pc(addr);
        }
    }

    /// Jump to address NNN.
    pub fn inst_1NNN(&mut self, nnn: u16)
        requires
            old(self)@.wf(),
            nnn < RAM_SIZE,
        ensures
            final(self)@ == sp_jump(old(self)@, nnn),
            final(self)@.wf(),
    {
        self.set_pc(nnn);
    }

    /// Call the subroutine at address NNN, pushing the post-fetch
    /// return address; with the stack full the call is rejected.
    pub fn inst_2NNN(&mut self, nnn: u16)
        requires
            old(self)@.wf(),
            nnn < RAM_SIZE,
        ensures
            final(self)@ == sp_sys_call(old(self)@, nnn),
            final(self)@.wf(),
    {
        if self.get_stack_pointer() < STACK_DEPTH as u8 {
            let pc = self.get_program_counter();
            self.push_to_stack(pc);
            self.set_pc(nnn);
        }
    }

    /// Skip the next instruction when X equals the immediate.
    pub fn inst_3XNN(&mut self, reg_vx: u8, nn: u8)
        requires
            old(self)@.wf(),
            reg_vx < NUM_REGISTERS,
        ensures
            final(self)@ == sp_skip_if(old(self)@, old(self)@.regs[reg_vx as int] == nn),
            final(self)@.wf(),
    {
        if self.get_register(reg_vx) == nn {
            self.skip_next();
        }
    }

    /// Skip the next instruction when X differs from the immediate.
    pub fn inst_4XNN(&mut self, reg_vx: u8, nn: u8)
        requires
            old(self)@.wf(),
            reg_vx < NUM_REGISTERS,
        ensures
            final(self)@ == sp_skip_if(old(self)@, old(self)@.regs[reg_vx as int] != nn),
            final(self)@.wf(),
    {
        if self.get_register(reg_vx) != nn {
            self.skip_next();
        }
    }

    /// Skip the next instruction when X equals Y.
    pub fn inst_5XY0(&mut self, reg_vx: u8, reg_vy: u8)
        requires
            old(self)@.wf(),
            reg_vx < NUM_REGISTERS,
            reg_vy < NUM_REGISTERS,
        ensures
            final(self)@ == sp_skip_if(
                old(self)@,
                old(self)@.regs[reg_vx as int] == old(self)@.regs[reg_vy as int],
            ),
            final(self)@.wf(),
    {
        if self.get_register(reg_vx) == self.get_register(reg_vy) {
            self.skip_next();
        }
    }

    /// Load the immediate into X.
    pub fn inst_6XNN(&mut self, reg_vx: u8, nn: u8)
        requires
            old(self)@.wf(),
            reg_vx < NUM_REGISTERS,
        ensures
            final(self)@ == sp_load_imm(old(self)@, reg_vx as int, nn),
            final(self)@.wf(),
    {
        self.set_register(reg_vx, nn);
    }

    /// Add the immediate to X with 8-bit wraparound; the flag register
    /// is untouched.
    pub fn inst_7XNN(&mut self, reg_vx: u8, nn: u8)
        requires
            old(self)@.wf(),
            reg_vx < NUM_REGISTERS,
        ensures
            final(self)@ == sp_add_imm(old(self)@, reg_vx as int, nn),
            final(self)@.wf(),
    {
        let a = self.get_register(reg_vx);
        self.set_register(reg_vx, ((a as u16 + nn as u16) % 256) as u8);
    }

    /// X gets Y.
    pub fn inst_8XY0(&mut self, reg_vx: u8, reg_vy: u8)
        requires
            old(self)@.wf(),
            reg_vx < NUM_REGISTERS,
            reg_vy < NUM_REGISTERS,
        ensures
            final(self)@ == sp_alu_assign(old(self)@, reg_vx as int, reg_vy as int),
            final(self)@.wf(),
    {
        let b = self.get_register(reg_vy);
        self.set_register(reg_vx, b);
    }

    /// X gets X OR Y.
    pub fn inst_8XY1(&mut self, reg_vx: u8, reg_vy: u8)
        requires
            old(self)@.wf(),
            reg_vx < NUM_REGISTERS,
            reg_vy < NUM_REGISTERS,
        ensures
            final(self)@ == sp_alu_or(old(self)@, reg_vx as int, reg_vy as int),
            final(self)@.wf(),
    {
        let a = self.get_register(reg_vx);
        let b = self.get_register(reg_vy);
        self.set_register(reg_vx, a | b);
    }

    /// X gets X AND Y.
    pub fn inst_8XY2(&mut self, reg_vx: u8, reg_vy: u8)
        requires
            old(self)@.wf(),
            reg_vx < NUM_REGISTERS,
            reg_vy < NUM_REGISTERS,
        ensures
            final(self)@ == sp_alu_and(old(self)@, reg_vx as int, reg_vy as int),
            final(self)@.wf(),
    {
        let a = self.get_register(reg_vx);
        let b = self.get_register(reg_vy);
        self.set_register(reg_vx, a & b);
    }

    /// X gets X XOR Y.
    pub fn inst_8XY3(&mut self, reg_vx: u8, reg_vy: u8)
        requires
            old(self)@.wf(),
            reg_vx < NUM_REGISTERS,
            reg_vy < NUM_REGISTERS,
        ensures
            final(self)@ == sp_alu_xor(old(self)@, reg_vx as int, reg_vy as int),
            final(self)@.wf(),
    {
        let a = self.get_register(reg_vx);
        let b = self.get_register(reg_vy);
        self.set_register(reg_vx, a ^ b);
    }

    /// X gets X + Y modulo 256; the flag is 1 exactly when the sum
    /// exceeds 255.
    pub fn inst_8XY4(&mut self, reg_vx: u8, reg_vy: u8)
        requires
            old(self)@.wf(),
            reg_vx < NUM_REGISTERS,
            reg_vy < NUM_REGISTERS,
        ensures
            final(self)@ == sp_alu_add(old(self)@, reg_vx as int, reg_vy as int),
            final(self)@.wf(),
    {
        let a = self.get_register(reg_vx);
        let b = self.get_register(reg_vy);
        let temp: u16 = a as u16 + b as u16;
        self.set_vf(temp > 0xFF);
        self.set_register(reg_vx, (temp % 256) as u8);
    }

    /// X gets X - Y with two's-complement wraparound; the flag is 1
    /// exactly when no borrow occurred, that is when X >= Y.
    pub fn inst_8XY5(&mut self, reg_vx: u8, reg_vy: u8)
        requires
            old(self)@.wf(),
            reg_vx < NUM_REGISTERS,
            reg_vy < NUM_REGISTERS,
        ensures
            final(self)@ == sp_alu_sub(old(self)@, reg_vx as int, reg_vy as int),
            final(self)@.wf(),
    {
        let a = self.get_register(reg_vx);
        let b = self.get_register(reg_vy);
        self.set_vf(a >= b);
        let diff: u16 = (256 + a as u16 - b as u16) % 256;
        self.set_register(reg_vx, diff as u8);
    }

    /// X gets Y shifted right one bit; the flag captures the bit
    /// shifted out.  The source is Y, not X.
    pub fn inst_8XY6(&mut self, reg_vx: u8, reg_vy: u8)
        requires
            old(self)@.wf(),
            reg_vx < NUM_REGISTERS,
            reg_vy < NUM_REGISTERS,
        ensures
            final(self)@ == sp_alu_shr(old(self)@, reg_vx as int, reg_vy as int),
            final(self)@.wf(),
    {
        let v = self.get_register(reg_vy);
        self.set_vf(v % 2 == 1);
        self.set_register(reg_vx, v / 2);
    }

    /// X gets Y - X with two's-complement wraparound; the flag is 1
    /// exactly when no borrow occurred, that is when Y >= X.
    pub fn inst_8XY7(&mut self, reg_vx: u8, reg_vy: u8)
        requires
            old(self)@.wf(),
            reg_vx < NUM_REGISTERS,
            reg_vy < NUM_REGISTERS,
        ensures
            final(self)@ == sp_alu_rsub(old(self)@, reg_vx as int, reg_vy as int),
            final(self)@.wf(),
    {
        let a = self.get_register(reg_vx);
        let b = self.get_register(reg_vy);
        self.set_vf(b >= a);
        let diff: u16 = (256 + b as u16 - a as u16) % 256;
        self.set_register(reg_vx, diff as u8);
    }

    /// X gets Y shifted left one bit, modulo 256; the flag captures
    /// the bit shifted out.  The source is Y, not X.
    pub fn inst_8XYE(&mut self, reg_vx: u8, reg_vy: u8)
        requires
            old(self)@.wf(),
            reg_vx < NUM_REGISTERS,
            reg_vy < NUM_REGISTERS,
        ensures
            final(self)@ == sp_alu_shl(old(self)@, reg_vx as int, reg_vy as int),
            final(self)@.wf(),
    {
        let v = self.get_register(reg_vy);
        self.set_vf(v >= 128);
        self.set_register(reg_vx, ((v as u16 * 2) % 256) as u8);
    }

    /// Skip the next instruction when X differs from Y.
    pub fn inst_9XY0(&mut self, reg_vx: u8, reg_vy: u8)
        requires
            old(self)@.wf(),
            reg_vx < NUM_REGISTERS,
            reg_vy < NUM_REGISTERS,
        ensures
            final(self)@ == sp_skip_if(
                old(self)@,
                old(self)@.regs[reg_vx as int] != old(self)@.regs[reg_vy as int],
            ),
            final(self)@.wf(),
    {
        if self.get_register(reg_vx) != self.get_register(reg_vy) {
            self.skip_next();
        }
    }

    /// Load the address NNN into the index register.
    pub fn inst_ANNN(&mut self, nnn: u16)
        requires
            old(self)@.wf(),
            nnn < RAM_SIZE,
        ensures
            final(self)@ == sp_set_index(old(self)@, nnn),
            final(self)@.wf(),
    {
        self.set_index_register(nnn);
    }

    /// Jump to NNN plus register 0, masked into the address space.
    pub fn inst_BNNN(&mut self, nnn: u16)
        requires
            old(self)@.wf(),
            nnn < RAM_SIZE,
        ensures
            final(self)@ == sp_jump_offset(old(self)@, nnn),
            final(self)@.wf(),
    {
        let v0 = self.get_register(0);
        self.set_pc((((nnn as usize) + (v0 as usize)) % RAM_SIZE) as u16);
    }

    /// X gets a random byte masked with the immediate.  Returns the
    /// byte the generator produced.
    pub fn inst_CXNN(&mut self, reg_vx: u8, nn: u8) -> (rnd: u8)
        requires
            old(self)@.wf(),
            reg_vx < NUM_REGISTERS,
        ensures
            final(self)@ == sp_random(old(self)@, reg_vx as int, nn, rnd),
            final(self)@.wf(),
    {
        let rnd = random_byte();
        self.store_random(reg_vx, nn, rnd);
        rnd
    }

    /// X gets the given byte masked with the immediate; the
    /// deterministic tail of the random instruction, verified for
    /// every byte the generator may hand back.
    pub fn store_random(&mut self, reg_vx: u8, nn: u8, rnd: u8)
        requires
            old(self)@.wf(),
            reg_vx < NUM_REGISTERS,
        ensures
            final(self)@ == sp_random(old(self)@, reg_vx as int, nn, rnd),
            final(self)@.wf(),
    {
        self.set_register(reg_vx, rnd & nn);
    }

    /// Skip the next instruction when the key selected by the low
    /// nibble of X is pressed.
    pub fn inst_EX9E(&mut self, reg_vx: u8)
        requires
            old(self)@.wf(),
            reg_vx < NUM_REGISTERS,
        ensures
            final(self)@ == sp_skip_if(
                old(self)@,
                old(self)@.keys[old(self)@.regs[reg_vx as int] as int % 16],
            ),
            final(self)@.wf(),
    {
        let k = self.get_register(reg_vx) % (NUM_KEYS as u8);
        if self.key(k) {
            self.skip_next();
        }
    }

    /// Skip the next instruction when the key selected by the low
    /// nibble of X is not pressed.
    pub fn inst_EXA1(&mut self, reg_vx: u8)
        requires
            old(self)@.wf(),
            reg_vx < NUM_REGISTERS,
        ensures
            final(self)@ == sp_skip_if(
                old(self)@,
                !old(self)@.keys[old(self)@.regs[reg_vx as int] as int % 16],
            ),
            final(self)@.wf(),
    {
        let k = self.get_register(reg_vx) % (NUM_KEYS as u8);
        if !self.key(k) {
            self.skip_next();
        }
    }

    /// X gets the delay timer.
    pub fn inst_FX07(&mut self, reg_vx: u8)
        requires
            old(self)@.wf(),
            reg_vx < NUM_REGISTERS,
        ensures
            final(self)@ == sp_get_delay(old(self)@, reg_vx as int),
            final(self)@.wf(),
    {
        let t = self.get_delay_timer();
        self.set_register(reg_vx, t);
    }

    /// Blocking key wait: with a key pressed, X gets the lowest
    /// pressed index; with none, the program counter moves back one
    /// instruction so the wait is refetched next cycle.
    pub fn inst_FX0A(&mut self, reg_vx: u8)
        requires
            old(self)@.wf(),
            reg_vx < NUM_REGISTERS,
        ensures
            final(self)@ == sp_key_wait(old(self)@, reg_vx as int),
            final(self)@.wf(),
    {
        let mut k: u8 = 0;
        while k < NUM_KEYS as u8
            invariant
                old(self)@.wf(),
                self@ == old(self)@,
                reg_vx < NUM_REGISTERS,
                k <= NUM_KEYS,
                forall|j: int| 0 <= j < k ==> !old(self)@.keys[j],
            decreases NUM_KEYS - k,
        {
            if self.key(k) {
                proof {
                    lemma_first_pressed(old(self)@.keys, 0, k as int);
                }
                self.set_register(reg_vx, k);
                return;
            }
            k += 1;
        }
        proof {
            assert(!any_key_pressed(old(self)@.keys));
        }
        let pc = self.get_program_counter();
        self.set_pc(((pc as usize + RAM_SIZE - 2) % RAM_SIZE) as u16);
    }

    /// The delay timer gets X.
    pub fn inst_FX15(&mut self, reg_vx: u8)
        requires
            old(self)@.wf(),
            reg_vx < NUM_REGISTERS,
        ensures
            final(self)@ == sp_store_delay(old(self)@, reg_vx as int),
            final(self)@.wf(),
    {
        let v = self.get_register(reg_vx);
        self.set_delay(v);
    }

    /// The sound timer gets X.
    pub fn inst_FX18(&mut self, reg_vx: u8)
        requires
            old(self)@.wf(),
            reg_vx < NUM_REGISTERS,
        ensures
            final(self)@ == sp_store_sound(old(self)@, reg_vx as int),
            final(self)@.wf(),
    {
        let v = self.get_register(reg_vx);
        self.set_sound(v);
    }

    /// The index register gets X added to it, accumulating over 16
    /// bits; memory accesses mask the result into the address space.
    pub fn inst_FX1E(&mut self, reg_vx: u8)
        requires
            old(self)@.wf(),
            reg_vx < NUM_REGISTERS,
        ensures
            final(self)@ == sp_add_index(old(self)@, reg_vx as int),
            final(self)@.wf(),
    {
        let i = self.get_index_register();
        let v = self.get_register(reg_vx);
        self.set_index_register((((i as usize) + (v as usize)) % 0x10000) as u16);
    }

    /// The index register points at the font glyph for the low nibble
    /// of X.
    pub fn inst_FX29(&mut self, reg_vx: u8)
        requires
            old(self)@.wf(),
            reg_vx < NUM_REGISTERS,
        ensures
            final(self)@ == sp_font_index(old(self)@, reg_vx as int),
            final(self)@.wf(),
    {
        let v = self.get_register(reg_vx);
        self.set_index_register(((v % 16) as u16) * 5);
    }

    /// Decimal-digit extraction of X into the three bytes at the index
    /// register: hundreds, tens, ones.
    pub fn inst_FX33(&mut self, reg_vx: u8)
        requires
            old(self)@.wf(),
            reg_vx < NUM_REGISTERS,
        ensures
            final(self)@ == sp_bcd(old(self)@, reg_vx as int),
            final(self)@.wf(),
    {
        let v = self.get_register(reg_vx);
        let base = self.get_index_register() as usize;
        self.mem_write_idx(base % RAM_SIZE, v / 100);
        self.mem_write_idx((base + 1) % RAM_SIZE, (v / 10) % 10);
        self.mem_write_idx((base + 2) % RAM_SIZE, v % 10);
    }

    /// Register dump: registers 0 through X stored at consecutive
    /// addresses from the index register.  The index register is then
    /// incremented by X + 1, ending just past the stored block; that
    /// is the convention this machine commits to.
    pub fn inst_FX55(&mut self, reg_vx: u8)
        requires
            old(self)@.wf(),
            reg_vx < NUM_REGISTERS,
        ensures
            final(self)@ == sp_store_regs(old(self)@, reg_vx as int),
            final(self)@.wf(),
    {
        let base = self.get_index_register() as usize;
        let ghost m = RAM_SIZE as int;
        let mut j: usize = 0;
        while j <= reg_vx as usize
            invariant
                old(self)@.wf(),
                reg_vx < NUM_REGISTERS,
                base == old(self)@.index,
                j <= reg_vx + 1,
                self@ == (VmState { mem: self@.mem, ..old(self)@ }),
                self@.mem.len() == RAM_SIZE,
                m == RAM_SIZE as int,
                forall|a: int| 0 <= a < RAM_SIZE ==> self@.mem[a] == (if (a - base) % m < j {
                    old(self)@.regs[(a - base) % m]
                } else {
                    old(self)@.mem[a]
                }),
            decreases reg_vx + 1 - j,
        {
            let addr = (base + j) % RAM_SIZE;
            let v = self.get_register(j as u8);
            let ghost prev_mem = self@.mem;
            self.mem_write_idx(addr, v);
            proof {
                lemma_dist_of_offset(base as int, j as int, m);
                assert forall|a: int| 0 <= a < RAM_SIZE implies self@.mem[a] == (if (a - base)
                    % m < j + 1 {
                    old(self)@.regs[(a - base) % m]
                } else {
                    old(self)@.mem[a]
                }) by {
                    if a != addr {
                        lemma_offset_of_dist(base as int, a, m);
                        assert((a - base) % m != j);
                    }
                }
            }
            j += 1;
        }
        let i = self.get_index_register();
        self.set_index_register(((i as usize + reg_vx as usize + 1) % 0x10000) as u16);
        proof {
            assert(self@.mem =~= sp_store_regs(old(self)@, reg_vx as int).mem);
            assert(self@ =~= sp_store_regs(old(self)@, reg_vx as int));
        }
    }

    /// Register load: registers 0 through X filled from consecutive
    /// addresses from the index register.  The index register is then
    /// incremented by X + 1, the same convention as the dump.
    pub fn inst_FX65(&mut self, reg_vx: u8)
        requires
            old(self)@.wf(),
            reg_vx < NUM_REGISTERS,
        ensures
            final(self)@ == sp_load_regs(old(self)@, reg_vx as int),
            final(self)@.wf(),
    {
        let base = self.get_index_register() as usize;
        let ghost m = RAM_SIZE as int;
        let mut j: usize = 0;
        while j <= reg_vx as usize
            invariant
                old(self)@.wf(),
                reg_vx < NUM_REGISTERS,
                base == old(self)@.index,
                j <= reg_vx + 1,
                self@ == (VmState { regs: self@.regs, ..old(self)@ }),
                self@.regs.len() == NUM_REGISTERS,
                m == RAM_SIZE as int,
                forall|r: int| 0 <= r < NUM_REGISTERS ==> self@.regs[r] == (if r < j {
                    old(self)@.mem[(base + r) % m]
                } else {
                    old(self)@.regs[r]
                }),
            decreases reg_vx + 1 - j,
        {
            let addr = (base + j) % RAM_SIZE;
            let v = self.mem_read_idx(addr);
            self.set_register(j as u8, v);
            j += 1;
        }
        let i = self.get_index_register();
        self.set_index_register(((i as usize + reg_vx as usize + 1) % 0x10000) as u16);
        proof {
            assert(self@.regs =~= sp_load_regs(old(self)@, reg_vx as int).regs);
            assert(self@ =~= sp_load_regs(old(self)@, reg_vx as int));
        }
    }

    /// One fetch-decode-execute cycle: reads the instruction word at
    /// the program counter, advances the counter, and applies the
    /// decoded instruction.  A word matching no instruction form is a
    /// no-op.  The byte quantified over is the one the random
    /// instruction drew; every other instruction ignores it.
    #[verifier::rlimit(100)]
    pub fn execute(&mut self)
        requires
            old(self)@.wf(),
        ensures
            final(self)@.wf(),
            exists|b: u8| final(self)@ == spec_step(old(self)@, b),
    {
        let w = self.fetch();
        let c = (w / 0x1000) as u8;
        let x = ((w / 0x100) % 0x10) as u8;
        let y = ((w / 0x10) % 0x10) as u8;
        let n = (w % 0x10) as u8;
        let nn = (w % 0x100) as u8;
        let nnn = w % 0x1000;
        let ghost s1 = self@;
        let ghost mut rb: u8 = 0;
        match (c, x, y, n) {
            (0x0, 0x0, 0xE, 0xE) => self.inst_00EE(),
            (0x0, 0x0, 0xE, 0x0) => self.inst_00E0(),
            (0x0, _, _, _) => self.inst_0NNN(nnn),
            (0x1, _, _, _) => self.inst_1NNN(nnn),
            (0x2, _, _, _) => self.inst_2NNN(nnn),
            (0x3, vx, _, _) => self.inst_3XNN(vx, nn),
            (0x4, vx, _, _) => self.inst_4XNN(vx, nn),
            (0x5, vx, vy, 0x0) => self.inst_5XY0(vx, vy),
            (0x6, vx, _, _) => self.inst_6XNN(vx, nn),
            (0x7, vx, _, _) => self.inst_7XNN(vx, nn),
            (0x8, vx, vy, 0x0) => self.inst_8XY0(vx, vy),
            (0x8, vx, vy, 0x1) => self.inst_8XY1(vx, vy),
            (0x8, vx, vy, 0x2) => self.inst_8XY2(vx, vy),
            (0x8, vx, vy, 0x3) => self.inst_8XY3(vx, vy),
            (0x8, vx, vy, 0x4) => self.inst_8XY4(vx, vy),
            (0x8, vx, vy, 0x5) => self.inst_8XY5(vx, vy),
            (0x8, vx, vy, 0x6) => self.inst_8XY6(vx, vy),
            (0x8, vx, vy, 0x7) => self.inst_8XY7(vx, vy),
            (0x8, vx, vy, 0xE) => self.inst_8XYE(vx, vy),
            (0x9, vx, vy, 0x0) => self.inst_9XY0(vx, vy),
            (0xA, _, _, _) => self.inst_ANNN(nnn),
            (0xB, _, _, _) => self.inst_BNNN(nnn),
            (0xC, vx, _, _) => {
                let b = self.inst_CXNN(vx, nn);
                proof {
                    rb = b;
                }
            },
            (0xD, vx, vy, rows) => self.inst_DXYN(vx, vy, rows),
            (0xE, vx, 0x9, 0xE) => self.inst_EX9E(vx),
            (0xE, vx, 0xA, 0x1) => self.inst_EXA1(vx),
            (0xF, vx, 0x0, 0x7) => self.inst_FX07(vx),
            (0xF, vx, 0x0, 0xA) => self.inst_FX0A(vx),
            (0xF, vx, 0x1, 0x5) => self.inst_FX15(vx),
            (0xF, vx, 0x1, 0x8) => self.inst_FX18(vx),
            (0xF, vx, 0x1, 0xE) => self.inst_FX1E(vx),
            (0xF, vx, 0x2, 0x9) => self.inst_FX29(vx),
            (0xF, vx, 0x3, 0x3) => self.inst_FX33(vx),
            (0xF, vx, 0x5, 0x5) => self.inst_FX55(vx),
            (0xF, vx, 0x6, 0x5) => self.inst_FX65(vx),
            _ => (),
        }
        proof {
            assert(self@ == sp_dispatch(s1, w, rb));
            assert(self@ == spec_step(old(self)@, rb));
        }
    }

    /// One fetch-decode-execute cycle, under the machine's older name
    /// for it.
    pub fn operate(&mut self)
        requires
            old(self)@.wf(),
        ensures
            final(self)@.wf(),
            exists|b: u8| final(self)@ == spec_step(old(self)@, b),
    {
        self.execute();
    }
}

} // verus!
