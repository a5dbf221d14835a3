//! The sprite-draw instruction: an N x 8 bitmap read from memory at
//! the index register is XOR-composited onto the display, with
//! coordinates wrapping at the screen edges and a collision flag when
//! a lit pixel is turned off.

use vstd::prelude::*;
use crate::state::{VmState, RAM_SIZE, SCREEN_WIDTH, SCREEN_HEIGHT};
use crate::step::flag_val;

verus! {

/// Bit `c` (0 = leftmost) of a sprite row byte.
pub open spec fn byte_bit(b: u8, c: int) -> bool {
    b & (0x80u8 >> c) != 0
}

/// Flat display index of sprite cell (row `r`, column `c`) drawn at
/// origin (`x0`, `y0`), wrapping by explicit modulo at the edges.
pub open spec fn pixel_at(x0: int, y0: int, r: int, c: int) -> int {
    ((y0 + r) % (SCREEN_HEIGHT as int)) * (SCREEN_WIDTH as int)
        + ((x0 + c) % (SCREEN_WIDTH as int))
}

/// Sprite cell (`r`, `c`) of the bitmap at memory offset `index`.
pub open spec fn sprite_bit(mem: Seq<u8>, index: int, r: int, c: int) -> bool {
    byte_bit(mem[(index + r) % (RAM_SIZE as int)], c)
}

/// Pixel `p` is toggled by one of the first `cnt` sprite cells, taken
/// in row-major order (cell (`r`, `c`) is number `8 * r + c`).
pub open spec fn covers_upto(
    mem: Seq<u8>,
    index: int,
    x0: int,
    y0: int,
    cnt: int,
    p: int,
) -> bool {
    exists|r: int, c: int|
        0 <= r && 0 <= c < 8 && 8 * r + c < cnt && pixel_at(x0, y0, r, c) == p
            && #[trigger] sprite_bit(mem, index, r, c)
}

/// Pixel `p` is toggled by an N-row sprite.
pub open spec fn covers(mem: Seq<u8>, index: int, x0: int, y0: int, n: int, p: int) -> bool {
    covers_upto(mem, index, x0, y0, 8 * n, p)
}

/// The first `cnt` sprite cells turn some lit pixel of `display` off.
pub open spec fn collision_upto(
    display: Seq<bool>,
    mem: Seq<u8>,
    index: int,
    x0: int,
    y0: int,
    cnt: int,
) -> bool {
    exists|p: int|
        0 <= p < display.len() && display[p] && covers_upto(mem, index, x0, y0, cnt, p)
}

/// Draw: every covered pixel is flipped, every other pixel keeps its
/// state, and the flag reports whether any previously-lit pixel was
/// unset.  The origin is read from registers X and Y before the flag
/// is written.
pub open spec fn sp_draw(s: VmState, x: int, y: int, n: int) -> VmState {
    let x0 = s.regs[x] as int;
    let y0 = s.regs[y] as int;
    let hit = collision_upto(s.display, s.mem, s.index as int, x0, y0, 8 * n);
    VmState {
        display: Seq::new(
            s.display.len(),
            |p: int| s.display[p] != covers(s.mem, s.index as int, x0, y0, n, p),
        ),
        regs: s.regs.update(0xF, flag_val(hit)),
        ..s
    }
}

/// Two distinct sprite cells of one draw always land on distinct
/// pixels: rows stay below the screen height and columns below the
/// width, so the wrapped coordinates are injective.
proof fn lemma_cells_distinct(x0: int, y0: int, r1: int, c1: int, r2: int, c2: int)
    requires
        0 <= x0,
        0 <= y0,
        0 <= r1 < SCREEN_HEIGHT,
        0 <= r2 < SCREEN_HEIGHT,
        0 <= c1 < 8,
        0 <= c2 < 8,
        pixel_at(x0, y0, r1, c1) == pixel_at(x0, y0, r2, c2),
    ensures
        r1 == r2 && c1 == c2,
{
    let w = SCREEN_WIDTH as int;
    let h = SCREEN_HEIGHT as int;
    let py1 = (y0 + r1) % h;
    let px1 = (x0 + c1) % w;
    let py2 = (y0 + r2) % h;
    let px2 = (x0 + c2) % w;
    vstd::arithmetic::div_mod::lemma_mod_bound(y0 + r1, h);
    vstd::arithmetic::div_mod::lemma_mod_bound(y0 + r2, h);
    vstd::arithmetic::div_mod::lemma_mod_bound(x0 + c1, w);
    vstd::arithmetic::div_mod::lemma_mod_bound(x0 + c2, w);
    let p = py1 * w + px1;
    vstd::arithmetic::div_mod::lemma_fundamental_div_mod_converse(p, w, py1, px1);
    vstd::arithmetic::div_mod::lemma_fundamental_div_mod_converse(p, w, py2, px2);
    crate::step::lemma_dist_of_offset(y0, r1, h);
    crate::step::lemma_dist_of_offset(y0, r2, h);
    crate::step::lemma_dist_of_offset(x0, c1, w);
    crate::step::lemma_dist_of_offset(x0, c2, w);
}

impl crate::machine::VirtualMachine {
    /// Draw: reads N rows of sprite bitmap from memory at the index
    /// register and XORs them onto the display at the origin held in
    /// registers X and Y, wrapping coordinates by modulo at the
    /// edges.  The flag reports whether any lit pixel was turned off.
    #[allow(non_snake_case)]
    pub fn inst_DXYN(&mut self, reg_vx: u8, reg_vy: u8, num_rows: u8)
        requires
            old(self)@.wf(),
            reg_vx < crate::state::NUM_REGISTERS,
            reg_vy < crate::state::NUM_REGISTERS,
            num_rows < 16,
        ensures
            final(self)@ == sp_draw(old(self)@, reg_vx as int, reg_vy as int, num_rows as int),
            final(self)@.wf(),
    {
        let x0 = self.get_register(reg_vx) as usize;
        let y0 = self.get_register(reg_vy) as usize;
        let total: usize = 8 * (num_rows as usize);
        let ghost mm = old(self)@.mem;
        let ghost ii = old(self)@.index as int;
        let ghost d0 = old(self)@.display;
        let mut flipped = false;
        let mut j: usize = 0;
        while j < total
            invariant
                old(self)@.wf(),
                x0 == old(self)@.regs[reg_vx as int],
                y0 == old(self)@.regs[reg_vy as int],
                total == 8 * num_rows,
                num_rows < 16,
                j <= total,
                mm == old(self)@.mem,
                ii == old(self)@.index as int,
                d0 == old(self)@.display,
                self@ == (VmState { display: self@.display, ..old(self)@ }),
                self@.display.len() == SCREEN_WIDTH * SCREEN_HEIGHT,
                forall|p: int|
                    0 <= p < SCREEN_WIDTH * SCREEN_HEIGHT ==> self@.display[p] == (d0[p]
                        != covers_upto(mm, ii, x0 as int, y0 as int, j as int, p)),
                flipped == collision_upto(d0, mm, ii, x0 as int, y0 as int, j as int),
            decreases total - j,
        {
            let r = j / 8;
            let c = j % 8;
            let addr = ((self.get_index_register() as usize) + r) % RAM_SIZE;
            let pixels = self.mem_read_idx(addr);
            let ghost jj = j as int;
            let ghost xx = x0 as int;
            let ghost yy = y0 as int;
            proof {
                vstd::arithmetic::div_mod::lemma_fundamental_div_mod(jj, 8);
            }
            if pixels & (0x80u8 >> c) != 0 {
                let px = (x0 + c) % SCREEN_WIDTH;
                let py = (y0 + r) % SCREEN_HEIGHT;
                let pidx = py * SCREEN_WIDTH + px;
                let cur = self.pixel(pidx);
                if cur {
                    flipped = true;
                }
                self.set_pixel(pidx, !cur);
                proof {
                    let pp = pidx as int;
                    assert(sprite_bit(mm, ii, jj / 8, jj % 8));
                    assert(pixel_at(xx, yy, jj / 8, jj % 8) == pp);
                    assert(covers_upto(mm, ii, xx, yy, jj + 1, pp));
                    // No earlier cell lands on this pixel.
                    assert(!covers_upto(mm, ii, xx, yy, jj, pp)) by {
                        if covers_upto(mm, ii, xx, yy, jj, pp) {
                            let (r1, c1) = choose|r1: int, c1: int|
                                0 <= r1 && 0 <= c1 < 8 && 8 * r1 + c1 < jj
                                    && pixel_at(xx, yy, r1, c1) == pp
                                    && #[trigger] sprite_bit(mm, ii, r1, c1);
                            lemma_cells_distinct(xx, yy, r1, c1, jj / 8, jj % 8);
                        }
                    }
                    // Cells beyond the new one are unchanged elsewhere.
                    assert forall|p: int| 0 <= p < SCREEN_WIDTH * SCREEN_HEIGHT && p != pp
                        implies covers_upto(mm, ii, xx, yy, jj + 1, p) == covers_upto(
                        mm,
                        ii,
                        xx,
                        yy,
                        jj,
                        p,
                    ) by {
                        if covers_upto(mm, ii, xx, yy, jj + 1, p) {
                            let (r1, c1) = choose|r1: int, c1: int|
                                0 <= r1 && 0 <= c1 < 8 && 8 * r1 + c1 < jj + 1
                                    && pixel_at(xx, yy, r1, c1) == p
                                    && #[trigger] sprite_bit(mm, ii, r1, c1);
                            if 8 * r1 + c1 == jj {
                                vstd::arithmetic::div_mod::lemma_fundamental_div_mod_converse(
                                    jj,
                                    8,
                                    r1,
                                    c1,
                                );
                                assert(false);
                            }
                            assert(covers_upto(mm, ii, xx, yy, jj, p));
                        }
                    }
                    // The collision flag tracks the pixels seen so far.
                    assert(cur == d0[pp]);
                    if cur {
                        assert(collision_upto(d0, mm, ii, xx, yy, jj + 1));
                    } else {
                        assert(collision_upto(d0, mm, ii, xx, yy, jj + 1) == collision_upto(
                            d0,
                            mm,
                            ii,
                            xx,
                            yy,
                            jj,
                        )) by {
                            if collision_upto(d0, mm, ii, xx, yy, jj + 1) {
                                let p1 = choose|p1: int|
                                    0 <= p1 < d0.len() && d0[p1] && covers_upto(
                                        mm,
                                        ii,
                                        xx,
                                        yy,
                                        jj + 1,
                                        p1,
                                    );
                                assert(p1 != pp);
                                assert(collision_upto(d0, mm, ii, xx, yy, jj));
                            }
                        }
                    }
                }
            } else {
                proof {
                    // A clear sprite bit toggles nothing.
                    assert forall|p: int| 0 <= p < SCREEN_WIDTH * SCREEN_HEIGHT
                        implies covers_upto(mm, ii, xx, yy, jj + 1, p) == covers_upto(
                        mm,
                        ii,
                        xx,
                        yy,
                        jj,
                        p,
                    ) by {
                        if covers_upto(mm, ii, xx, yy, jj + 1, p) {
                            let (r1, c1) = choose|r1: int, c1: int|
                                0 <= r1 && 0 <= c1 < 8 && 8 * r1 + c1 < jj + 1
                                    && pixel_at(xx, yy, r1, c1) == p
                                    && #[trigger] sprite_bit(mm, ii, r1, c1);
                            if 8 * r1 + c1 == jj {
                                vstd::arithmetic::div_mod::lemma_fundamental_div_mod_converse(
                                    jj,
                                    8,
                                    r1,
                                    c1,
                                );
                                assert(false);
                            }
                            assert(covers_upto(mm, ii, xx, yy, jj, p));
                        }
                    }
                    assert(collision_upto(d0, mm, ii, xx, yy, jj + 1) == collision_upto(
                        d0,
                        mm,
                        ii,
                        xx,
                        yy,
                        jj,
                    )) by {
                        if collision_upto(d0, mm, ii, xx, yy, jj + 1) {
                            let p1 = choose|p1: int|
                                0 <= p1 < d0.len() && d0[p1] && covers_upto(
                                    mm,
                                    ii,
                                    xx,
                                    yy,
                                    jj + 1,
                                    p1,
                                );
                            assert(collision_upto(d0, mm, ii, xx, yy, jj));
                        }
                    }
                }
            }
            j += 1;
        }
        self.set_vf(flipped);
        proof {
            assert(self@.display =~= sp_draw(
                old(self)@,
                reg_vx as int,
                reg_vy as int,
                num_rows as int,
            ).display);
            assert(self@ =~= sp_draw(old(self)@, reg_vx as int, reg_vy as int, num_rows as int));
        }
    }
}

} // verus!
