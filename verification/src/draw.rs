//! Sprite drawing: an 8-pixel-wide, N-row bitmap is read from memory at I
//! and composited onto the framebuffer with per-pixel XOR and wrap-around
//! addressing on both axes.
//!
//! Collision convention, chosen once and documented here: VF is computed
//! once for the whole sprite and normalized - it becomes 1 exactly when some
//! drawn bit turned a set cell off, and 0 otherwise (it is written on every
//! draw, even one that draws nothing).

use vstd::prelude::*;
use crate::state::{VmView, VmError, MEM_SIZE, SCREEN_CELLS};
use crate::vm::Emulator;

verus! {

/// A framebuffer cell after a set sprite bit is XORed into it.
pub open spec fn flip(cell: u8) -> u8 {
    if cell == 1 {
        0u8
    } else {
        1u8
    }
}

/// Whether bit `j` (counted from the left) of sprite row `r` is set, for a
/// sprite read from memory at `idx`.
pub open spec fn sprite_on(mem: Seq<u8>, idx: int, r: int, j: int) -> bool {
    mem[idx + r] & (1u8 << ((7 - j) as u8)) != 0
}

/// The flat framebuffer position that sprite bit (`r`, `j`) lands on when
/// the sprite is drawn at (`vx`, `vy`): both axes wrap.
pub open spec fn pos_of(vx: int, vy: int, r: int, j: int) -> int {
    ((vx + j) % 64) * 32 + ((vy + r) % 32)
}

/// The framebuffer after the first `p` sprite bits, in row-major order,
/// have been composited: cell `k` is flipped when some processed set sprite
/// bit lands on it, and kept otherwise.
pub open spec fn drawn_upto(
    s0: Seq<u8>,
    mem: Seq<u8>,
    idx: int,
    vx: int,
    vy: int,
    n: int,
    p: int,
) -> Seq<u8> {
    Seq::new(
        SCREEN_CELLS as nat,
        |k: int|
            {
                let dx = (k / 32 - vx + 64) % 64;
                let dy = (k % 32 - vy + 32) % 32;
                if dx < 8 && dy < n && dy * 8 + dx < p && sprite_on(mem, idx, dy, dx) {
                    flip(s0[k])
                } else {
                    s0[k]
                }
            },
    )
}

/// Whether some of the first `p` sprite bits, in row-major order, is set
/// and lands on a cell that was already set.
pub open spec fn coll_upto(
    s0: Seq<u8>,
    mem: Seq<u8>,
    idx: int,
    vx: int,
    vy: int,
    n: int,
    p: int,
) -> bool {
    exists|rr: int, jj: int|
        0 <= rr < n && 0 <= jj < 8 && rr * 8 + jj < p && #[trigger] sprite_on(mem, idx, rr, jj)
            && s0[pos_of(vx, vy, rr, jj)] == 1
}

/// The framebuffer after a whole N-row sprite is composited at (`vx`, `vy`).
pub open spec fn draw_screen(
    s0: Seq<u8>,
    mem: Seq<u8>,
    idx: int,
    vx: int,
    vy: int,
    n: int,
) -> Seq<u8> {
    drawn_upto(s0, mem, idx, vx, vy, n, 8 * n)
}

/// Whether a whole N-row sprite composited at (`vx`, `vy`) turns some set
/// cell off.
pub open spec fn draw_collision(
    s0: Seq<u8>,
    mem: Seq<u8>,
    idx: int,
    vx: int,
    vy: int,
    n: int,
) -> bool {
    coll_upto(s0, mem, idx, vx, vy, n, 8 * n)
}

/// The draw transition: the sprite rows at I..I+N are XORed into the
/// framebuffer at (VX mod 64, VY mod 32), VF reports whether any set cell
/// was turned off, and the framebuffer is marked dirty; fails when a sprite
/// row would be read from outside memory.
pub open spec fn spec_draw(v: VmView, x: int, y: int, n: int) -> (Result<(), VmError>, VmView) {
    if n > 0 && v.index + n > MEM_SIZE {
        (Err(VmError::OutOfBounds { addr: (v.index + n - 1) as u32 }), v)
    } else {
        let vx = v.regs[x] % 64;
        let vy = v.regs[y] % 32;
        let coll = draw_collision(v.screen, v.mem, v.index as int, vx as int, vy as int, n);
        (
            Ok(()),
            VmView {
                screen: draw_screen(v.screen, v.mem, v.index as int, vx as int, vy as int, n),
                regs: v.regs.update(15, if coll { 1u8 } else { 0u8 }),
                redraw: true,
                ..v
            },
        )
    }
}

/// On a wrapped axis of size 32, landing offset `r` from origin `vy` is the
/// same as landing at absolute position `(vy + r) % 32`.
proof fn lemma_wrap32(vy: int, r: int, yp: int)
    requires
        0 <= vy < 32,
        0 <= r < 32,
        0 <= yp < 32,
    ensures
        ((yp - vy + 32) % 32 == r) <==> (yp == (vy + r) % 32),
{
    if vy + r < 32 {
        assert((vy + r) % 32 == vy + r);
    } else {
        assert((vy + r) % 32 == vy + r - 32);
    }
    if yp - vy + 32 < 32 {
        assert((yp - vy + 32) % 32 == yp - vy + 32);
    } else {
        assert((yp - vy + 32) % 32 == yp - vy);
    }
}

/// On a wrapped axis of size 64, landing offset `j` from origin `vx` is the
/// same as landing at absolute position `(vx + j) % 64`.
proof fn lemma_wrap64(vx: int, j: int, xp: int)
    requires
        0 <= vx < 64,
        0 <= j < 64,
        0 <= xp < 64,
    ensures
        ((xp - vx + 64) % 64 == j) <==> (xp == (vx + j) % 64),
{
    if vx + j < 64 {
        assert((vx + j) % 64 == vx + j);
    } else {
        assert((vx + j) % 64 == vx + j - 64);
    }
    if xp - vx + 64 < 64 {
        assert((xp - vx + 64) % 64 == xp - vx + 64);
    } else {
        assert((xp - vx + 64) % 64 == xp - vx);
    }
}

/// Decomposing a flat cell position: the cell at `xp * 32 + yp` has column
/// `xp` and row `yp`.
proof fn lemma_cell_decompose(xp: int, yp: int)
    requires
        0 <= xp < 64,
        0 <= yp < 32,
    ensures
        0 <= xp * 32 + yp < SCREEN_CELLS,
        (xp * 32 + yp) / 32 == xp,
        (xp * 32 + yp) % 32 == yp,
{
}

/// Sprite bit (`r`, `j`) is not yet processed at progress `r * 8 + j`, so
/// the cell it lands on still holds its original value; and that cell is in
/// range.
proof fn lemma_cell_of_bit(
    s0: Seq<u8>,
    mem: Seq<u8>,
    idx: int,
    vx: int,
    vy: int,
    n: int,
    r: int,
    j: int,
)
    requires
        0 <= vx < 64,
        0 <= vy < 32,
        0 <= r < n <= 15,
        0 <= j < 8,
        s0.len() == SCREEN_CELLS,
    ensures
        0 <= pos_of(vx, vy, r, j) < SCREEN_CELLS,
        drawn_upto(s0, mem, idx, vx, vy, n, r * 8 + j)[pos_of(vx, vy, r, j)] == s0[pos_of(
            vx,
            vy,
            r,
            j,
        )],
{
    let xp = (vx + j) % 64;
    let yp = (vy + r) % 32;
    let k = pos_of(vx, vy, r, j);
    assert(0 <= xp < 64 && 0 <= yp < 32);
    lemma_cell_decompose(xp, yp);
    lemma_wrap64(vx, j, xp);
    lemma_wrap32(vy, r, yp);
    assert((k / 32 - vx + 64) % 64 == j);
    assert((k % 32 - vy + 32) % 32 == r);
}

/// Pointwise effect of processing one set sprite bit: the screen at
/// progress `r * 8 + j + 1` is the screen at progress `r * 8 + j` with the
/// landing cell flipped, and the collision predicate grows by exactly that
/// bit's collision.
proof fn lemma_draw_step_on(
    s0: Seq<u8>,
    mem: Seq<u8>,
    idx: int,
    vx: int,
    vy: int,
    n: int,
    r: int,
    j: int,
    coll_new: bool,
)
    requires
        0 <= vx < 64,
        0 <= vy < 32,
        0 <= r < n <= 15,
        0 <= j < 8,
        s0.len() == SCREEN_CELLS,
        sprite_on(mem, idx, r, j),
        coll_new == (coll_upto(s0, mem, idx, vx, vy, n, r * 8 + j) || s0[pos_of(vx, vy, r, j)]
            == 1),
    ensures
        drawn_upto(s0, mem, idx, vx, vy, n, r * 8 + j + 1) =~= drawn_upto(
            s0,
            mem,
            idx,
            vx,
            vy,
            n,
            r * 8 + j,
        ).update(pos_of(vx, vy, r, j), flip(s0[pos_of(vx, vy, r, j)])),
        coll_new == coll_upto(s0, mem, idx, vx, vy, n, r * 8 + j + 1),
{
    let p = r * 8 + j;
    let k = pos_of(vx, vy, r, j);
    lemma_cell_of_bit(s0, mem, idx, vx, vy, n, r, j);
    assert forall|k2: int| 0 <= k2 < SCREEN_CELLS implies drawn_upto(
        s0,
        mem,
        idx,
        vx,
        vy,
        n,
        p + 1,
    )[k2] == drawn_upto(s0, mem, idx, vx, vy, n, p).update(k, flip(s0[k]))[k2] by {
        let xp2 = k2 / 32;
        let yp2 = k2 % 32;
        assert(0 <= xp2 < 64 && 0 <= yp2 < 32);
        let dx = (xp2 - vx + 64) % 64;
        let dy = (yp2 - vy + 32) % 32;
        assert(0 <= dx < 64 && 0 <= dy < 32);
        lemma_wrap64(vx, dx, xp2);
        lemma_wrap32(vy, dy, yp2);
        lemma_cell_decompose((vx + j) % 64, (vy + r) % 32);
        if dy == r && dx == j {
            // this is the landing cell itself: it becomes processed at p + 1
            assert(xp2 == (vx + j) % 64 && yp2 == (vy + r) % 32);
            assert(k2 == xp2 * 32 + yp2);
            assert(k2 == k);
        } else {
            // any other cell: its processed status is unchanged by bit p
            if k2 == k {
                assert(xp2 == (vx + j) % 64 && yp2 == (vy + r) % 32);
                assert(dx == j && dy == r);
            }
            assert(k2 != k);
            if dx < 8 && dy * 8 + dx == p {
                assert(dy == r && dx == j);
                assert(false);
            }
        }
    }
    // collision: the one candidate bit added at p + 1 is (r, j)
    if coll_upto(s0, mem, idx, vx, vy, n, p) {
        let (rr, jj) = choose|rr: int, jj: int|
            0 <= rr < n && 0 <= jj < 8 && rr * 8 + jj < p && #[trigger] sprite_on(mem, idx, rr, jj)
                && s0[pos_of(vx, vy, rr, jj)] == 1;
        assert(rr * 8 + jj < p + 1);
        assert(coll_upto(s0, mem, idx, vx, vy, n, p + 1));
    }
    if s0[k] == 1 {
        assert(r * 8 + j < p + 1);
        assert(coll_upto(s0, mem, idx, vx, vy, n, p + 1));
    }
    if coll_upto(s0, mem, idx, vx, vy, n, p + 1) && !coll_upto(s0, mem, idx, vx, vy, n, p) {
        let (rr, jj) = choose|rr: int, jj: int|
            0 <= rr < n && 0 <= jj < 8 && rr * 8 + jj < p + 1 && #[trigger] sprite_on(
                mem,
                idx,
                rr,
                jj,
            ) && s0[pos_of(vx, vy, rr, jj)] == 1;
        assert(rr * 8 + jj == p);
        assert(rr == r && jj == j);
        assert(s0[k] == 1);
    }
}

/// Pointwise effect of passing over one clear sprite bit: nothing changes.
proof fn lemma_draw_step_off(
    s0: Seq<u8>,
    mem: Seq<u8>,
    idx: int,
    vx: int,
    vy: int,
    n: int,
    r: int,
    j: int,
)
    requires
        0 <= vx < 64,
        0 <= vy < 32,
        0 <= r < n <= 15,
        0 <= j < 8,
        s0.len() == SCREEN_CELLS,
        !sprite_on(mem, idx, r, j),
    ensures
        drawn_upto(s0, mem, idx, vx, vy, n, r * 8 + j + 1) =~= drawn_upto(
            s0,
            mem,
            idx,
            vx,
            vy,
            n,
            r * 8 + j,
        ),
        coll_upto(s0, mem, idx, vx, vy, n, r * 8 + j + 1) == coll_upto(
            s0,
            mem,
            idx,
            vx,
            vy,
            n,
            r * 8 + j,
        ),
{
    let p = r * 8 + j;
    assert forall|k2: int| 0 <= k2 < SCREEN_CELLS implies drawn_upto(
        s0,
        mem,
        idx,
        vx,
        vy,
        n,
        p + 1,
    )[k2] == drawn_upto(s0, mem, idx, vx, vy, n, p)[k2] by {
        let xp2 = k2 / 32;
        let yp2 = k2 % 32;
        let dx = (xp2 - vx + 64) % 64;
        let dy = (yp2 - vy + 32) % 32;
        if dx < 8 && dy * 8 + dx == p {
            assert(dy == r && dx == j);
        }
    }
    if coll_upto(s0, mem, idx, vx, vy, n, p + 1) {
        let (rr, jj) = choose|rr: int, jj: int|
            0 <= rr < n && 0 <= jj < 8 && rr * 8 + jj < p + 1 && #[trigger] sprite_on(
                mem,
                idx,
                rr,
                jj,
            ) && s0[pos_of(vx, vy, rr, jj)] == 1;
        if rr * 8 + jj == p {
            assert(rr == r && jj == j);
            assert(false);
        }
        assert(coll_upto(s0, mem, idx, vx, vy, n, p));
    }
    if coll_upto(s0, mem, idx, vx, vy, n, p) {
        let (rr, jj) = choose|rr: int, jj: int|
            0 <= rr < n && 0 <= jj < 8 && rr * 8 + jj < p && #[trigger] sprite_on(mem, idx, rr, jj)
                && s0[pos_of(vx, vy, rr, jj)] == 1;
        assert(coll_upto(s0, mem, idx, vx, vy, n, p + 1));
    }
}

impl Emulator {
    /// Draws the N-row sprite at memory I..I+N onto the framebuffer at
    /// (VX mod 64, VY mod 32): every set sprite bit flips its cell, with
    /// wrap-around on both axes.  VF becomes 1 exactly when some set cell
    /// was turned off, and 0 otherwise; the framebuffer is marked dirty.
    /// Fails when a sprite row would be read from outside memory.
    pub fn draw_sprite(&mut self, x: u8, y: u8, n: u8) -> (r: Result<(), VmError>)
        requires
            old(self).wf(),
            x < 16,
            y < 16,
            n < 16,
        ensures
            final(self).wf(),
            (r, final(self)@) == spec_draw(old(self)@, x as int, y as int, n as int),
    {
        let idx = self.index();
        if n > 0 && idx as usize + n as usize > MEM_SIZE {
            return Err(VmError::OutOfBounds { addr: idx as u32 + n as u32 - 1 });
        }
        let vx = (self.reg(x) % 64) as usize;
        let vy = (self.reg(y) % 32) as usize;
        let ghost s0 = self@.screen;
        let ghost mem0 = self@.mem;
        let ghost idx0 = self@.index as int;
        let mut collision = false;
        proof {
            assert(self@.screen =~= drawn_upto(s0, mem0, idx0, vx as int, vy as int, n as int, 0));
        }
        let mut row: usize = 0;
        while row < n as usize
            invariant
                old(self).wf(),
                x < 16,
                y < 16,
                n < 16,
                row <= n,
                idx == old(self)@.index,
                vx == old(self)@.regs[x as int] % 64,
                vy == old(self)@.regs[y as int] % 32,
                s0 == old(self)@.screen,
                mem0 == old(self)@.mem,
                idx0 == old(self)@.index as int,
                n > 0 ==> idx0 + n <= MEM_SIZE,
                self.wf(),
                self@ == (VmView { screen: self@.screen, ..old(self)@ }),
                self@.screen == drawn_upto(
                    s0,
                    mem0,
                    idx0,
                    vx as int,
                    vy as int,
                    n as int,
                    row as int * 8,
                ),
                collision == coll_upto(
                    s0,
                    mem0,
                    idx0,
                    vx as int,
                    vy as int,
                    n as int,
                    row as int * 8,
                ),
            decreases n - row,
        {
            let byte = self.mem_at(idx as usize + row);
            let yp = (vy + row) % 32;
            let mut j: usize = 0;
            while j < 8
                invariant
                    old(self).wf(),
                    x < 16,
                    y < 16,
                    n < 16,
                    row < n,
                    j <= 8,
                    idx == old(self)@.index,
                    vx == old(self)@.regs[x as int] % 64,
                    vy == old(self)@.regs[y as int] % 32,
                    s0 == old(self)@.screen,
                    mem0 == old(self)@.mem,
                    idx0 == old(self)@.index as int,
                    idx0 + n <= MEM_SIZE,
                    byte == mem0[idx0 + row],
                    yp == (vy + row) % 32,
                    self.wf(),
                    self@ == (VmView { screen: self@.screen, ..old(self)@ }),
                    self@.screen == drawn_upto(
                        s0,
                        mem0,
                        idx0,
                        vx as int,
                        vy as int,
                        n as int,
                        row as int * 8 + j,
                    ),
                    collision == coll_upto(
                        s0,
                        mem0,
                        idx0,
                        vx as int,
                        vy as int,
                        n as int,
                        row as int * 8 + j,
                    ),
                decreases 8 - j,
            {
                let ghost p = row as int * 8 + j;
                let mask: u8 = 1u8 << ((7 - j) as u8);
                if byte & mask != 0 {
                    let xp = (vx + j) % 64;
                    let k = xp * 32 + yp;
                    proof {
                        assert(sprite_on(mem0, idx0, row as int, j as int));
                        lemma_cell_of_bit(
                            s0,
                            mem0,
                            idx0,
                            vx as int,
                            vy as int,
                            n as int,
                            row as int,
                            j as int,
                        );
                        assert(k == pos_of(vx as int, vy as int, row as int, j as int));
                        assert(self@.screen[k as int] == s0[k as int]);
                    }
                    if self.screen_at(k) == 1 {
                        self.screen_put(k, 0);
                        collision = true;
                    } else {
                        self.screen_put(k, 1);
                    }
                    proof {
                        lemma_draw_step_on(
                            s0,
                            mem0,
                            idx0,
                            vx as int,
                            vy as int,
                            n as int,
                            row as int,
                            j as int,
                            collision,
                        );
                        assert(self@.screen =~= drawn_upto(
                            s0,
                            mem0,
                            idx0,
                            vx as int,
                            vy as int,
                            n as int,
                            p + 1,
                        ));
                    }
                } else {
                    proof {
                        assert(!sprite_on(mem0, idx0, row as int, j as int));
                        lemma_draw_step_off(
                            s0,
                            mem0,
                            idx0,
                            vx as int,
                            vy as int,
                            n as int,
                            row as int,
                            j as int,
                        );
                        assert(self@.screen =~= drawn_upto(
                            s0,
                            mem0,
                            idx0,
                            vx as int,
                            vy as int,
                            n as int,
                            p + 1,
                        ));
                    }
                }
                j = j + 1;
            }
            row = row + 1;
        }
        self.put_vf(if collision { 1 } else { 0 });
        self.mark_redraw();
        proof {
            assert(self@.screen == draw_screen(s0, mem0, idx0, vx as int, vy as int, n as int));
            assert(collision == draw_collision(s0, mem0, idx0, vx as int, vy as int, n as int));
            assert(self@ =~= spec_draw(old(self)@, x as int, y as int, n as int).1);
        }
        Ok(())
    }
}

} // verus!
