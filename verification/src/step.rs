//! Instruction semantics: one pure transform per instruction over the
//! abstract state, the decoder's field extraction, and the dispatch
//! that ties a fetched word to its transform.  `spec_step` is the whole
//! meaning of one fetch-decode-execute cycle.

use vstd::prelude::*;
use crate::state::{VmState, sp_next_pc, sp_fetch_word, RAM_SIZE, SCREEN_WIDTH, SCREEN_HEIGHT,
    STACK_DEPTH, NUM_KEYS};
use crate::draw::sp_draw;

verus! {

// ---------------------------------------------------------------------
// Field extraction from a two-byte instruction word.

/// Top nibble: the opcode class.
pub open spec fn op_class(w: u16) -> int {
    w as int / 0x1000
}

/// Second nibble: register index X.
pub open spec fn op_x(w: u16) -> int {
    (w as int / 0x100) % 0x10
}

/// Third nibble: register index Y.
pub open spec fn op_y(w: u16) -> int {
    (w as int / 0x10) % 0x10
}

/// Bottom nibble: a row count or sub-opcode.
pub open spec fn op_n(w: u16) -> int {
    w as int % 0x10
}

/// Bottom byte: an 8-bit immediate.
pub open spec fn op_nn(w: u16) -> u8 {
    (w as int % 0x100) as u8
}

/// Bottom 12 bits: an address.
pub open spec fn op_nnn(w: u16) -> u16 {
    (w as int % 0x1000) as u16
}

/// The value a flag-producing instruction writes into register 0xF.
pub open spec fn flag_val(cond: bool) -> u8 {
    if cond { 1u8 } else { 0u8 }
}

/// The program counter moved back by one instruction, wrapping within
/// the address space; used to re-fetch the same instruction.
pub open spec fn sp_prev_pc(pc: u16) -> u16 {
    (((pc as int) + (RAM_SIZE as int) - 2) % (RAM_SIZE as int)) as u16
}

/// A 16-bit accumulation, wrapping as the index register does.
pub open spec fn sp_wrap16(v: int) -> u16 {
    (v % 0x10000) as u16
}

// ---------------------------------------------------------------------
// Per-instruction transforms.  Each takes the state after the fetch has
// advanced the program counter, and yields the state after the
// instruction's effects.

/// Call: push the post-fetch program counter, jump to the address.
/// With the stack full the operation is rejected and nothing happens.
pub open spec fn sp_sys_call(s: VmState, nnn: u16) -> VmState {
    if s.sp < STACK_DEPTH {
        VmState {
            stack: s.stack.update(s.sp as int, s.pc),
            sp: (s.sp + 1) as u8,
            pc: nnn,
            ..s
        }
    } else {
        s
    }
}

/// Return: pop an address and resume there.  With the stack empty the
/// operation is rejected and nothing happens.
pub open spec fn sp_return(s: VmState) -> VmState {
    if s.sp > 0 {
        VmState { sp: (s.sp - 1) as u8, pc: s.stack[s.sp - 1], ..s }
    } else {
        s
    }
}

/// Clear the display.
pub open spec fn sp_clear_display(s: VmState) -> VmState {
    VmState {
        display: Seq::new((SCREEN_WIDTH * SCREEN_HEIGHT) as nat, |i: int| false),
        ..s
    }
}

/// Unconditional jump.
pub open spec fn sp_jump(s: VmState, nnn: u16) -> VmState {
    VmState { pc: nnn, ..s }
}

/// Conditional skip: one extra instruction width when the condition
/// holds, nothing otherwise.
pub open spec fn sp_skip_if(s: VmState, cond: bool) -> VmState {
    if cond {
        VmState { pc: sp_next_pc(s.pc), ..s }
    } else {
        s
    }
}

/// Load an immediate into register X.
pub open spec fn sp_load_imm(s: VmState, x: int, nn: u8) -> VmState {
    VmState { regs: s.regs.update(x, nn), ..s }
}

/// Add an immediate to register X with 8-bit wraparound; no flag.
pub open spec fn sp_add_imm(s: VmState, x: int, nn: u8) -> VmState {
    VmState { regs: s.regs.update(x, ((s.regs[x] + nn) % 256) as u8), ..s }
}

/// Register assign: X gets Y.
pub open spec fn sp_alu_assign(s: VmState, x: int, y: int) -> VmState {
    VmState { regs: s.regs.update(x, s.regs[y]), ..s }
}

/// Bitwise OR into X.
pub open spec fn sp_alu_or(s: VmState, x: int, y: int) -> VmState {
    VmState { regs: s.regs.update(x, s.regs[x] | s.regs[y]), ..s }
}

/// Bitwise AND into X.
pub open spec fn sp_alu_and(s: VmState, x: int, y: int) -> VmState {
    VmState { regs: s.regs.update(x, s.regs[x] & s.regs[y]), ..s }
}

/// Bitwise XOR into X.
pub open spec fn sp_alu_xor(s: VmState, x: int, y: int) -> VmState {
    VmState { regs: s.regs.update(x, s.regs[x] ^ s.regs[y]), ..s }
}

/// Addition with carry: the flag is 1 exactly when the 9-bit sum
/// exceeds 255; X gets the sum modulo 256.  The flag is written first,
/// as the machine does, so X == 0xF ends up holding the sum.
pub open spec fn sp_alu_add(s: VmState, x: int, y: int) -> VmState {
    let t = s.regs[x] + s.regs[y];
    VmState {
        regs: s.regs.update(0xF, flag_val(t > 255)).update(x, (t % 256) as u8),
        ..s
    }
}

/// Subtraction X - Y with borrow-NOT flag: 1 exactly when X >= Y;
/// X gets the difference with two's-complement wraparound.
pub open spec fn sp_alu_sub(s: VmState, x: int, y: int) -> VmState {
    let a = s.regs[x] as int;
    let b = s.regs[y] as int;
    VmState {
        regs: s.regs.update(0xF, flag_val(a >= b)).update(
            x,
            (if a >= b { a - b } else { a + 256 - b }) as u8,
        ),
        ..s
    }
}

/// Shift right: X gets Y shifted right one bit; the flag captures the
/// bit shifted out (the least-significant bit of the source).
pub open spec fn sp_alu_shr(s: VmState, x: int, y: int) -> VmState {
    let v = s.regs[y] as int;
    VmState {
        regs: s.regs.update(0xF, flag_val(v % 2 == 1)).update(x, (v / 2) as u8),
        ..s
    }
}

/// Reverse subtraction Y - X with borrow-NOT flag: 1 exactly when
/// Y >= X.
pub open spec fn sp_alu_rsub(s: VmState, x: int, y: int) -> VmState {
    let a = s.regs[x] as int;
    let b = s.regs[y] as int;
    VmState {
        regs: s.regs.update(0xF, flag_val(b >= a)).update(
            x,
            (if b >= a { b - a } else { b + 256 - a }) as u8,
        ),
        ..s
    }
}

/// Shift left: X gets Y doubled modulo 256; the flag captures the
/// most-significant bit of the source.
pub open spec fn sp_alu_shl(s: VmState, x: int, y: int) -> VmState {
    let v = s.regs[y] as int;
    VmState {
        regs: s.regs.update(0xF, flag_val(v >= 128)).update(x, ((v * 2) % 256) as u8),
        ..s
    }
}

/// Load a 12-bit address into the index register.
pub open spec fn sp_set_index(s: VmState, nnn: u16) -> VmState {
    VmState { index: nnn, ..s }
}

/// Jump to the address plus register 0, masked into the address space.
pub open spec fn sp_jump_offset(s: VmState, nnn: u16) -> VmState {
    VmState { pc: ((nnn + s.regs[0]) % (RAM_SIZE as int)) as u16, ..s }
}

/// Random load: X gets a byte masked with the immediate.  The byte
/// itself is whatever the generator produced.
pub open spec fn sp_random(s: VmState, x: int, nn: u8, rnd: u8) -> VmState {
    VmState { regs: s.regs.update(x, rnd & nn), ..s }
}

/// Copy the delay timer into X.
pub open spec fn sp_get_delay(s: VmState, x: int) -> VmState {
    VmState { regs: s.regs.update(x, s.delay), ..s }
}

/// Copy X into the delay timer.
pub open spec fn sp_store_delay(s: VmState, x: int) -> VmState {
    VmState { delay: s.regs[x], ..s }
}

/// Copy X into the sound timer.
pub open spec fn sp_store_sound(s: VmState, x: int) -> VmState {
    VmState { sound: s.regs[x], ..s }
}

/// Add X to the index register, accumulating over 16 bits.
pub open spec fn sp_add_index(s: VmState, x: int) -> VmState {
    VmState { index: sp_wrap16(s.index + s.regs[x]), ..s }
}

/// Point the index register at the font glyph for the low nibble of X;
/// each glyph occupies five bytes from address 0.
pub open spec fn sp_font_index(s: VmState, x: int) -> VmState {
    VmState { index: (((s.regs[x] as int) % 16) * 5) as u16, ..s }
}

/// Decimal-digit extraction of X into the three bytes at the index
/// register: hundreds, tens, ones.  Addresses wrap into memory.
pub open spec fn sp_bcd(s: VmState, x: int) -> VmState {
    let v = s.regs[x] as int;
    let m = RAM_SIZE as int;
    VmState {
        mem: s.mem
            .update(s.index as int % m, (v / 100) as u8)
            .update((s.index as int + 1) % m, ((v / 10) % 10) as u8)
            .update((s.index as int + 2) % m, (v % 10) as u8),
        ..s
    }
}

/// Register dump: registers 0 through X stored at consecutive
/// addresses from the index register, which then moves past the block.
/// The byte at address `a` changes exactly when `a` lies at offset
/// 0..=X from the index register, modulo the memory size.
pub open spec fn sp_store_regs(s: VmState, x: int) -> VmState {
    let m = RAM_SIZE as int;
    VmState {
        mem: Seq::new(
            s.mem.len(),
            |a: int|
                {
                    let j = (a - s.index as int) % m;
                    if j <= x {
                        s.regs[j]
                    } else {
                        s.mem[a]
                    }
                },
        ),
        index: sp_wrap16(s.index + x + 1),
        ..s
    }
}

/// Register load: registers 0 through X filled from consecutive
/// addresses from the index register, which then moves past the block.
pub open spec fn sp_load_regs(s: VmState, x: int) -> VmState {
    let m = RAM_SIZE as int;
    VmState {
        regs: Seq::new(
            s.regs.len(),
            |r: int| if r <= x {
                s.mem[(s.index as int + r) % m]
            } else {
                s.regs[r]
            },
        ),
        index: sp_wrap16(s.index + x + 1),
        ..s
    }
}

// ---------------------------------------------------------------------
// Wrapped block addresses.  A block transfer touches the addresses at
// offsets 0..=X from the index register, modulo the memory size; these
// two lemmas let the offset of an address be recovered and show the
// touched addresses distinct.

/// The address at offset `j` from `base` lies at distance `j`.
pub proof fn lemma_dist_of_offset(base: int, j: int, m: int)
    requires
        0 < m,
        0 <= j < m,
        0 <= base,
    ensures
        (((base + j) % m) - base) % m == j,
{
    let a = (base + j) % m;
    vstd::arithmetic::div_mod::lemma_mod_bound(base + j, m);
    vstd::arithmetic::div_mod::lemma_small_mod(a as nat, m as nat);
    vstd::arithmetic::div_mod::lemma_sub_mod_noop(base + j, base, m);
    vstd::arithmetic::div_mod::lemma_sub_mod_noop_right(a, base, m);
    vstd::arithmetic::div_mod::lemma_small_mod(j as nat, m as nat);
}

/// An in-range address is the one at its own distance from `base`.
pub proof fn lemma_offset_of_dist(base: int, a: int, m: int)
    requires
        0 < m,
        0 <= a < m,
        0 <= base,
    ensures
        (base + ((a - base) % m)) % m == a,
{
    vstd::arithmetic::div_mod::lemma_add_mod_noop_right(base, a - base, m);
    vstd::arithmetic::div_mod::lemma_small_mod(a as nat, m as nat);
}

// ---------------------------------------------------------------------
// The blocking key wait.

/// Some key is currently pressed.
pub open spec fn any_key_pressed(keys: Seq<bool>) -> bool {
    exists|k: int| 0 <= k < NUM_KEYS && keys[k]
}

/// Index of the first pressed key at or after `k`, or the key count
/// when none is.
pub open spec fn first_pressed_from(keys: Seq<bool>, k: int) -> int
    decreases NUM_KEYS - k,
{
    if k < 0 || k >= NUM_KEYS {
        NUM_KEYS as int
    } else if keys[k] {
        k
    } else {
        first_pressed_from(keys, k + 1)
    }
}

/// Key wait: with a key pressed, X gets the lowest pressed index and
/// the cycle completes; with none pressed, the program counter moves
/// back one instruction so the same wait is refetched next cycle.
pub open spec fn sp_key_wait(s: VmState, x: int) -> VmState {
    if any_key_pressed(s.keys) {
        VmState { regs: s.regs.update(x, first_pressed_from(s.keys, 0) as u8), ..s }
    } else {
        VmState { pc: sp_prev_pc(s.pc), ..s }
    }
}

/// A scan that found no pressed key below `k` and a pressed key at `k`
/// has found the first pressed key.
pub proof fn lemma_first_pressed(keys: Seq<bool>, lo: int, k: int)
    requires
        keys.len() == NUM_KEYS,
        0 <= lo <= k < NUM_KEYS,
        keys[k],
        forall|j: int| lo <= j < k ==> !keys[j],
    ensures
        first_pressed_from(keys, lo) == k,
    decreases k - lo,
{
    if lo < k {
        lemma_first_pressed(keys, lo + 1, k);
    }
}

// ---------------------------------------------------------------------
// Decode and dispatch.

/// Effect of the instruction word `w` on the post-fetch state `s`.
/// `rnd` is the byte the generator produced, consulted only by the
/// random instruction.  A word matching no instruction form is a
/// no-op, preserving the historical behavior.
pub open spec fn sp_dispatch(s: VmState, w: u16, rnd: u8) -> VmState {
    let c = op_class(w);
    let x = op_x(w);
    let y = op_y(w);
    let n = op_n(w);
    let nn = op_nn(w);
    let nnn = op_nnn(w);
    if c == 0x0 {
        if x == 0x0 && y == 0xE && n == 0xE {
            sp_return(s)
        } else if x == 0x0 && y == 0xE && n == 0x0 {
            sp_clear_display(s)
        } else {
            sp_sys_call(s, nnn)
        }
    } else if c == 0x1 {
        sp_jump(s, nnn)
    } else if c == 0x2 {
        sp_sys_call(s, nnn)
    } else if c == 0x3 {
        sp_skip_if(s, s.regs[x] == nn)
    } else if c == 0x4 {
        sp_skip_if(s, s.regs[x] != nn)
    } else if c == 0x5 {
        if n == 0x0 {
            sp_skip_if(s, s.regs[x] == s.regs[y])
        } else {
            s
        }
    } else if c == 0x6 {
        sp_load_imm(s, x, nn)
    } else if c == 0x7 {
        sp_add_imm(s, x, nn)
    } else if c == 0x8 {
        if n == 0x0 {
            sp_alu_assign(s, x, y)
        } else if n == 0x1 {
            sp_alu_or(s, x, y)
        } else if n == 0x2 {
            sp_alu_and(s, x, y)
        } else if n == 0x3 {
            sp_alu_xor(s, x, y)
        } else if n == 0x4 {
            sp_alu_add(s, x, y)
        } else if n == 0x5 {
            sp_alu_sub(s, x, y)
        } else if n == 0x6 {
            sp_alu_shr(s, x, y)
        } else if n == 0x7 {
            sp_alu_rsub(s, x, y)
        } else if n == 0xE {
            sp_alu_shl(s, x, y)
        } else {
            s
        }
    } else if c == 0x9 {
        if n == 0x0 {
            sp_skip_if(s, s.regs[x] != s.regs[y])
        } else {
            s
        }
    } else if c == 0xA {
        sp_set_index(s, nnn)
    } else if c == 0xB {
        sp_jump_offset(s, nnn)
    } else if c == 0xC {
        sp_random(s, x, nn, rnd)
    } else if c == 0xD {
        sp_draw(s, x, y, n)
    } else if c == 0xE {
        if y == 0x9 && n == 0xE {
            sp_skip_if(s, s.keys[s.regs[x] as int % 16])
        } else if y == 0xA && n == 0x1 {
            sp_skip_if(s, !s.keys[s.regs[x] as int % 16])
        } else {
            s
        }
    } else if c == 0xF {
        if y == 0x0 && n == 0x7 {
            sp_get_delay(s, x)
        } else if y == 0x0 && n == 0xA {
            sp_key_wait(s, x)
        } else if y == 0x1 && n == 0x5 {
            sp_store_delay(s, x)
        } else if y == 0x1 && n == 0x8 {
            sp_store_sound(s, x)
        } else if y == 0x1 && n == 0xE {
            sp_add_index(s, x)
        } else if y == 0x2 && n == 0x9 {
            sp_font_index(s, x)
        } else if y == 0x3 && n == 0x3 {
            sp_bcd(s, x)
        } else if y == 0x5 && n == 0x5 {
            sp_store_regs(s, x)
        } else if y == 0x6 && n == 0x5 {
            sp_load_regs(s, x)
        } else {
            s
        }
    } else {
        s
    }
}

/// One whole cycle: fetch the word at the program counter, advance the
/// counter by one instruction, then apply the decoded instruction.
pub open spec fn spec_step(s: VmState, rnd: u8) -> VmState {
    let w = sp_fetch_word(s);
    sp_dispatch(VmState { pc: sp_next_pc(s.pc), ..s }, w, rnd)
}

} // verus!
