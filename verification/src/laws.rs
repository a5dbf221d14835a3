//! Machine-wide laws: properties of the instruction semantics that
//! hold for every state, proved once and for all from the transforms
//! the handlers' contracts are written in.

use vstd::prelude::*;
use crate::state::{VmState, init_state, font_seq, sp_load_mem, sp_fetch_word, sp_next_pc,
    RAM_SIZE, SCREEN_WIDTH, SCREEN_HEIGHT, NUM_REGISTERS, FONT_BYTES, ADDR_START};
use crate::step::{sp_alu_add, sp_alu_sub, sp_alu_shr, sp_alu_shl, sp_clear_display, flag_val,
    op_class, op_x, op_y, op_n, op_nn, spec_step, any_key_pressed};
use crate::draw::{sp_draw, covers};

verus! {

/// Register addition: for all 8-bit values a and b held in X and Y,
/// the flag becomes 1 exactly when a + b exceeds 255, and X gets
/// (a + b) modulo 256.  The flag register itself cannot be the
/// destination, or the sum would overwrite the flag.
pub proof fn lemma_add_flag(s: VmState, x: int, y: int)
    requires
        s.wf(),
        0 <= x < NUM_REGISTERS,
        0 <= y < NUM_REGISTERS,
        x != 0xF,
    ensures
        sp_alu_add(s, x, y).regs[x] == (s.regs[x] + s.regs[y]) % 256,
        sp_alu_add(s, x, y).regs[0xF] == flag_val(s.regs[x] + s.regs[y] > 255),
{
}

/// Register subtraction X - Y: the flag becomes 1 exactly when no
/// borrow occurred, that is when X >= Y, and X gets the difference
/// with two's-complement wraparound.
pub proof fn lemma_sub_flag(s: VmState, x: int, y: int)
    requires
        s.wf(),
        0 <= x < NUM_REGISTERS,
        0 <= y < NUM_REGISTERS,
        x != 0xF,
    ensures
        sp_alu_sub(s, x, y).regs[x] == (s.regs[x] - s.regs[y] + 256) % 256,
        sp_alu_sub(s, x, y).regs[0xF] == flag_val(s.regs[x] >= s.regs[y]),
{
    let a = s.regs[x] as int;
    let b = s.regs[y] as int;
    if a >= b {
        vstd::arithmetic::div_mod::lemma_mod_add_multiples_vanish(a - b, 256);
        vstd::arithmetic::div_mod::lemma_small_mod((a - b) as nat, 256);
    } else {
        vstd::arithmetic::div_mod::lemma_small_mod((a - b + 256) as nat, 256);
    }
}

/// Shift right: X gets the source value shifted right one bit, and
/// the flag captures the source's least-significant bit.
pub proof fn lemma_shr_bits(s: VmState, x: int, y: int)
    requires
        s.wf(),
        0 <= x < NUM_REGISTERS,
        0 <= y < NUM_REGISTERS,
        x != 0xF,
    ensures
        sp_alu_shr(s, x, y).regs[x] == s.regs[y] >> 1u8,
        sp_alu_shr(s, x, y).regs[0xF] == s.regs[y] & 1,
{
    let v = s.regs[y];
    assert(v >> 1u8 == v / 2) by (bit_vector);
    assert(v & 1 == v % 2) by (bit_vector);
}

/// Shift left: X gets the source value shifted left one bit, taken
/// modulo 256, and the flag is 1 exactly when the source's
/// most-significant bit was set.
pub proof fn lemma_shl_bits(s: VmState, x: int, y: int)
    requires
        s.wf(),
        0 <= x < NUM_REGISTERS,
        0 <= y < NUM_REGISTERS,
        x != 0xF,
    ensures
        sp_alu_shl(s, x, y).regs[x] == s.regs[y] << 1u8,
        (sp_alu_shl(s, x, y).regs[x] as int) == (2 * s.regs[y]) % 256,
        sp_alu_shl(s, x, y).regs[0xF] == flag_val(s.regs[y] & 0x80 != 0),
{
    let v = s.regs[y];
    assert(((v << 1u8) as int) == (2 * v) % 256) by (bit_vector);
    assert((v & 0x80 != 0) == (v >= 128)) by (bit_vector);
}

/// The clear-display instruction yields an all-dark buffer of length
/// width times height.
pub proof fn lemma_clear_display(s: VmState)
    requires
        s.wf(),
    ensures
        sp_clear_display(s).display.len() == SCREEN_WIDTH * SCREEN_HEIGHT,
        forall|p: int| 0 <= p < SCREEN_WIDTH * SCREEN_HEIGHT
            ==> !sp_clear_display(s).display[p],
{
}

/// Loading a program and reading memory back over the loaded range
/// returns the program bytes unchanged.
pub proof fn lemma_load_round_trip(s: VmState, data: Seq<u8>)
    requires
        s.wf(),
        data.len() <= RAM_SIZE - ADDR_START,
    ensures
        forall|i: int| 0 <= i < data.len()
            ==> sp_load_mem(s.mem, data)[ADDR_START + i] == data[i],
        forall|i: int| 0 <= i < RAM_SIZE && !(ADDR_START <= i < ADDR_START + data.len())
            ==> sp_load_mem(s.mem, data)[i] == s.mem[i],
{
}

/// Words of the conditional-skip instructions: register-immediate
/// equal and not-equal, register-register equal and not-equal, and
/// the two key tests.
pub open spec fn is_skip_word(w: u16) -> bool {
    let c = op_class(w);
    ||| c == 0x3
    ||| c == 0x4
    ||| (c == 0x5 && op_n(w) == 0x0)
    ||| (c == 0x9 && op_n(w) == 0x0)
    ||| (c == 0xE && ((op_y(w) == 0x9 && op_n(w) == 0xE) || (op_y(w) == 0xA && op_n(w) == 0x1)))
}

/// The condition a skip word tests against the state.
pub open spec fn skip_condition(s: VmState, w: u16) -> bool {
    let c = op_class(w);
    let x = op_x(w);
    let y = op_y(w);
    if c == 0x3 {
        s.regs[x] == op_nn(w)
    } else if c == 0x4 {
        s.regs[x] != op_nn(w)
    } else if c == 0x5 {
        s.regs[x] == s.regs[y]
    } else if c == 0x9 {
        s.regs[x] != s.regs[y]
    } else if y == 0x9 {
        s.keys[s.regs[x] as int % 16]
    } else {
        !s.keys[s.regs[x] as int % 16]
    }
}

/// Words that neither jump, call, return, skip, nor wait for a key:
/// their only effect on the program counter is the fetch advance.
pub open spec fn is_plain_word(w: u16) -> bool {
    let c = op_class(w);
    &&& !is_skip_word(w)
    &&& !(c == 0x0 && !(op_x(w) == 0x0 && op_y(w) == 0xE && op_n(w) == 0x0))
    &&& c != 0x1
    &&& c != 0x2
    &&& c != 0xB
    &&& !(c == 0xF && op_y(w) == 0x0 && op_n(w) == 0xA)
}

/// A plain instruction advances the program counter by exactly one
/// instruction width, two bytes.
pub proof fn lemma_pc_plain(s: VmState, b: u8)
    requires
        s.wf(),
        is_plain_word(sp_fetch_word(s)),
        s.pc + 2 < RAM_SIZE,
    ensures
        spec_step(s, b).pc == s.pc + 2,
{
    vstd::arithmetic::div_mod::lemma_small_mod((s.pc + 2) as nat, RAM_SIZE as nat);
}

/// A skip instruction advances the program counter by four bytes net
/// when its condition holds, and by the ordinary two when it does
/// not.
pub proof fn lemma_pc_skip(s: VmState, b: u8)
    requires
        s.wf(),
        is_skip_word(sp_fetch_word(s)),
        s.pc + 4 < RAM_SIZE,
    ensures
        spec_step(s, b).pc == if skip_condition(s, sp_fetch_word(s)) {
            s.pc + 4
        } else {
            s.pc + 2
        },
{
    vstd::arithmetic::div_mod::lemma_small_mod((s.pc + 2) as nat, RAM_SIZE as nat);
    vstd::arithmetic::div_mod::lemma_small_mod((s.pc + 4) as nat, RAM_SIZE as nat);
}

/// Every instruction but the random load ignores the drawn byte, so
/// a cycle that does not decode to the random class is deterministic.
pub proof fn lemma_step_ignores_byte(s: VmState, b1: u8, b2: u8)
    requires
        op_class(sp_fetch_word(s)) != 0xC,
    ensures
        spec_step(s, b1) == spec_step(s, b2),
{
}

/// The key-wait instruction with no key pressed leaves the machine
/// exactly as it was: the program counter is moved back over the
/// fetch advance, so repeated cycles refetch the same wait until a
/// key is pressed.
pub proof fn lemma_key_wait_blocks(s: VmState, b: u8)
    requires
        s.wf(),
        !any_key_pressed(s.keys),
        op_class(sp_fetch_word(s)) == 0xF,
        op_y(sp_fetch_word(s)) == 0x0,
        op_n(sp_fetch_word(s)) == 0xA,
    ensures
        spec_step(s, b) == s,
{
    let m = RAM_SIZE as int;
    let next = sp_next_pc(s.pc) as int;
    if s.pc + 2 < m {
        vstd::arithmetic::div_mod::lemma_small_mod((s.pc + 2) as nat, m as nat);
        vstd::arithmetic::div_mod::lemma_mod_add_multiples_vanish(s.pc as int, m);
        vstd::arithmetic::div_mod::lemma_small_mod(s.pc as nat, m as nat);
    } else {
        vstd::arithmetic::div_mod::lemma_mod_add_multiples_vanish(s.pc + 2 - m, m);
        vstd::arithmetic::div_mod::lemma_small_mod((s.pc + 2 - m) as nat, m as nat);
        vstd::arithmetic::div_mod::lemma_small_mod(s.pc as nat, m as nat);
        vstd::arithmetic::div_mod::lemma_mod_add_multiples_vanish(next + (m - 2) - m, m);
    }
    assert(spec_step(s, b) =~= s);
}

/// Drawing the same sprite twice at the same coordinates restores the
/// display exactly, and the second draw reports a collision precisely
/// when the first draw lit some pixel that had been dark.  The flag
/// register cannot serve as a coordinate register here, since the
/// first draw overwrites it.
pub proof fn lemma_draw_twice(s: VmState, x: int, y: int, n: int)
    requires
        s.wf(),
        0 <= x < NUM_REGISTERS,
        0 <= y < NUM_REGISTERS,
        x != 0xF,
        y != 0xF,
        0 <= n,
    ensures
        sp_draw(sp_draw(s, x, y, n), x, y, n).display == s.display,
        sp_draw(sp_draw(s, x, y, n), x, y, n).regs[0xF] == flag_val(
            exists|p: int|
                0 <= p < s.display.len() && !s.display[p] && covers(
                    s.mem,
                    s.index as int,
                    s.regs[x] as int,
                    s.regs[y] as int,
                    n,
                    p,
                ),
        ),
{
    let x0 = s.regs[x] as int;
    let y0 = s.regs[y] as int;
    let ii = s.index as int;
    let s2 = sp_draw(s, x, y, n);
    let t = sp_draw(s2, x, y, n);
    assert(s2.regs[x] == s.regs[x]);
    assert(s2.regs[y] == s.regs[y]);
    assert(t.display =~= s.display);
    let hit2 = crate::draw::collision_upto(s2.display, s.mem, ii, x0, y0, 8 * n);
    let lit = exists|p: int|
        0 <= p < s.display.len() && !s.display[p] && covers(s.mem, ii, x0, y0, n, p);
    if hit2 {
        let p = choose|p: int|
            0 <= p < s2.display.len() && s2.display[p] && crate::draw::covers_upto(
                s.mem,
                ii,
                x0,
                y0,
                8 * n,
                p,
            );
        assert(!s.display[p] && covers(s.mem, ii, x0, y0, n, p));
        assert(lit);
    }
    if lit {
        let p = choose|p: int|
            0 <= p < s.display.len() && !s.display[p] && covers(s.mem, ii, x0, y0, n, p);
        assert(s2.display[p]);
        assert(hit2);
    }
}

/// The font table occupies the first 80 bytes of memory in the
/// initial state, which both construction and reset establish.
pub proof fn lemma_font_table_initial()
    ensures
        init_state().mem.subrange(0, FONT_BYTES as int) == font_seq(),
{
    assert(init_state().mem.subrange(0, FONT_BYTES as int) =~= font_seq());
}

} // verus!
