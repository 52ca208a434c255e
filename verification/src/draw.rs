//! Sprite drawing: the XOR-blit of an 8-pixel-wide sprite onto the 64x32
//! display, with coordinates wrapping at the display edges, and collision
//! detection for the bits that are actually drawn.

use vstd::prelude::*;
use vstd::pervasive::VecAdditionalExecFns;
use vstd::arithmetic::div_mod::lemma_fundamental_div_mod;
use vstd::arithmetic::div_mod::lemma_fundamental_div_mod_converse;
use crate::machine::{Chip8, MachineView};

verus! {

/// Whether bit `j` of a sprite row byte is set; bit 0 is the most
/// significant bit and stands for the leftmost pixel.
pub open spec fn sprite_bit(row: u8, j: int) -> bool {
    row & (0x80u8 >> (j as u8)) != 0
}

/// The flat display-buffer index of the pixel at column `x`, row `y`.
pub open spec fn pixel_index(x: int, y: int) -> int {
    y * 64 + x
}

/// The display after XOR-blitting a sprite of `h` rows, read from `mem`
/// starting at `index`, at origin column `x0`, row `y0`. A pixel at
/// column `tx`, row `ty` is covered by sprite cell `(i, j)` exactly when
/// `(x0 + j) % 64 == tx` and `(y0 + i) % 32 == ty`; each covered pixel is
/// toggled when its sprite bit is set, every other pixel keeps its value.
pub open spec fn draw_display(
    disp: Seq<bool>,
    mem: Seq<u8>,
    index: int,
    x0: int,
    y0: int,
    h: int,
) -> Seq<bool> {
    Seq::new(
        disp.len(),
        |p: int|
            {
                let i = (p / 64 - y0) % 32;
                let j = (p % 64 - x0) % 64;
                if i < h && j < 8 && sprite_bit(mem[index + i], j) {
                    !disp[p]
                } else {
                    disp[p]
                }
            },
    )
}

/// Whether blitting the sprite onto `disp` toggles off any pixel that was
/// already lit: a set sprite bit landing on a lit pixel. A clear sprite
/// bit never collides.
pub open spec fn draw_collision(
    disp: Seq<bool>,
    mem: Seq<u8>,
    index: int,
    x0: int,
    y0: int,
    h: int,
) -> bool {
    exists|i: int, j: int|
        0 <= i < h && 0 <= j < 8 && #[trigger] sprite_bit(mem[index + i], j) && disp[pixel_index(
            (x0 + j) % 64,
            (y0 + i) % 32,
        )]
}

/// Row-major order on sprite cells: cell `(i, j)` comes before the cursor
/// `(ci, cj)`.
spec fn cell_before(i: int, j: int, ci: int, cj: int) -> bool {
    i < ci || (i == ci && j < cj)
}

/// The display after blitting only the sprite cells before the cursor
/// `(ci, cj)` in row-major order. With the cursor past the last row this
/// is the full blit.
spec fn draw_display_partial(
    disp: Seq<bool>,
    mem: Seq<u8>,
    index: int,
    x0: int,
    y0: int,
    ci: int,
    cj: int,
) -> Seq<bool> {
    Seq::new(
        disp.len(),
        |p: int|
            {
                let i = (p / 64 - y0) % 32;
                let j = (p % 64 - x0) % 64;
                if j < 8 && cell_before(i, j, ci, cj) && sprite_bit(mem[index + i], j) {
                    !disp[p]
                } else {
                    disp[p]
                }
            },
    )
}

/// Whether any sprite cell before the cursor `(ci, cj)` collides.
spec fn draw_collision_partial(
    disp: Seq<bool>,
    mem: Seq<u8>,
    index: int,
    x0: int,
    y0: int,
    ci: int,
    cj: int,
) -> bool {
    exists|i: int, j: int|
        0 <= i && 0 <= j < 8 && cell_before(i, j, ci, cj) && #[trigger] sprite_bit(mem[index + i], j)
            && disp[pixel_index((x0 + j) % 64, (y0 + i) % 32)]
}

/// Wrapping a column offset and subtracting the origin recovers the
/// offset: the map from sprite column to display column is injective.
proof fn lemma_col_round_trip(x0: int, j: int)
    requires
        0 <= x0 < 256,
        0 <= j < 8,
    ensures
        0 <= (x0 + j) % 64 < 64,
        ((x0 + j) % 64 - x0) % 64 == j,
{
    let tx = (x0 + j) % 64;
    lemma_fundamental_div_mod(x0 + j, 64);
    let q = (x0 + j) / 64;
    lemma_fundamental_div_mod_converse(tx - x0, 64, -q, j);
}

/// A display column with a sprite-column offset below 8 is the wrap of
/// that offset: the only sprite column that can cover it.
proof fn lemma_col_unwrap(x0: int, tx: int)
    requires
        0 <= x0 < 256,
        0 <= tx < 64,
    ensures
        0 <= (tx - x0) % 64 < 64,
        (x0 + (tx - x0) % 64) % 64 == tx,
{
    lemma_fundamental_div_mod(tx - x0, 64);
    let q = (tx - x0) / 64;
    lemma_fundamental_div_mod_converse(x0 + (tx - x0) % 64, 64, -q, tx);
}

/// Wrapping a row offset and subtracting the origin recovers the offset.
proof fn lemma_row_round_trip(y0: int, i: int)
    requires
        0 <= y0 < 256,
        0 <= i < 16,
    ensures
        0 <= (y0 + i) % 32 < 32,
        ((y0 + i) % 32 - y0) % 32 == i,
{
    let ty = (y0 + i) % 32;
    lemma_fundamental_div_mod(y0 + i, 32);
    let q = (y0 + i) / 32;
    lemma_fundamental_div_mod_converse(ty - y0, 32, -q, i);
}

/// A display row with a sprite-row offset is the wrap of that offset.
proof fn lemma_row_unwrap(y0: int, ty: int)
    requires
        0 <= y0 < 256,
        0 <= ty < 32,
    ensures
        0 <= (ty - y0) % 32 < 32,
        (y0 + (ty - y0) % 32) % 32 == ty,
{
    lemma_fundamental_div_mod(ty - y0, 32);
    let q = (ty - y0) / 32;
    lemma_fundamental_div_mod_converse(y0 + (ty - y0) % 32, 32, -q, ty);
}

/// A flat display index splits into its column and row and back.
proof fn lemma_pixel_split(tx: int, ty: int)
    requires
        0 <= tx < 64,
        0 <= ty < 32,
    ensures
        0 <= pixel_index(tx, ty) < 2048,
        pixel_index(tx, ty) % 64 == tx,
        pixel_index(tx, ty) / 64 == ty,
{
    lemma_fundamental_div_mod_converse(ty * 64 + tx, 64, ty, tx);
}

impl Chip8 {
    /// XOR-blits a sprite of `h` rows read from memory at the index
    /// register onto the display at origin `(vx mod 64, vy mod 32)`, with
    /// wrap-around at both display edges, and reports whether any drawn
    /// bit toggled a lit pixel off. Touches nothing but the display.
    pub fn draw_sprite(&mut self, vx: u8, vy: u8, h: u8) -> (collision: bool)
        requires
            old(self).wf(),
            h < 16,
            old(self)@.index + h <= 4096,
        ensures
            final(self).wf(),
            final(self)@ == (MachineView {
                display: draw_display(
                    old(self)@.display,
                    old(self)@.memory,
                    old(self)@.index as int,
                    vx as int,
                    vy as int,
                    h as int,
                ),
                ..old(self)@
            }),
            collision == draw_collision(
                old(self)@.display,
                old(self)@.memory,
                old(self)@.index as int,
                vx as int,
                vy as int,
                h as int,
            ),
    {
        let ghost pre = old(self)@;
        let ghost x0 = vx as int;
        let ghost y0 = vy as int;
        let ghost index = pre.index as int;
        let mut collision = false;
        let mut i: usize = 0;
        while i < h as usize
            invariant
                self.wf(),
                i <= h < 16,
                pre.wf(),
                pre == old(self)@,
                pre.index + h <= 4096,
                x0 == vx as int,
                y0 == vy as int,
                index == pre.index as int,
                self@ == (MachineView { display: self@.display, ..pre }),
                self@.display =~= draw_display_partial(
                    pre.display,
                    pre.memory,
                    index,
                    x0,
                    y0,
                    i as int,
                    0,
                ),
                collision == draw_collision_partial(
                    pre.display,
                    pre.memory,
                    index,
                    x0,
                    y0,
                    i as int,
                    0,
                ),
            decreases h - i,
        {
            let row = self.memory[self.index as usize + i];
            let mut j: usize = 0;
            while j < 8
                invariant
                    self.wf(),
                    i < h < 16,
                    j <= 8,
                    pre.wf(),
                    pre == old(self)@,
                    pre.index + h <= 4096,
                    x0 == vx as int,
                    y0 == vy as int,
                    index == pre.index as int,
                    row == pre.memory[index + i],
                    self@ == (MachineView { display: self@.display, ..pre }),
                    self@.display =~= draw_display_partial(
                        pre.display,
                        pre.memory,
                        index,
                        x0,
                        y0,
                        i as int,
                        j as int,
                    ),
                    collision == draw_collision_partial(
                        pre.display,
                        pre.memory,
                        index,
                        x0,
                        y0,
                        i as int,
                        j as int,
                    ),
                decreases 8 - j,
            {
                let ghost disp_in = self@.display;
                let ghost col_in = collision;
                if row & (0x80u8 >> (j as u8)) != 0 {
                    let tx = ((vx as usize) + j) % 64;
                    let ty = ((vy as usize) + i) % 32;
                    proof {
                        lemma_col_round_trip(x0, j as int);
                        lemma_row_round_trip(y0, i as int);
                        lemma_pixel_split(tx as int, ty as int);
                    }
                    let p = ty * 64 + tx;
                    let lit = self.display[p];
                    assert(lit == pre.display[p as int]) by {
                        assert(!cell_before((p / 64 - y0) % 32, (p % 64 - x0) % 64, i as int, j as int));
                    }
                    if lit {
                        collision = true;
                    }
                    self.display.set(p, !lit);
                    proof {
                        lemma_draw_cell_step(
                            pre.display, pre.memory, index, x0, y0,
                            i as int, j as int, disp_in, self@.display,
                        );
                        lemma_collision_cell_step(
                            pre.display, pre.memory, index, x0, y0,
                            i as int, j as int, col_in, collision,
                        );
                    }
                } else {
                    proof {
                        lemma_draw_cell_skip(
                            pre.display, pre.memory, index, x0, y0, i as int, j as int,
                        );
                        lemma_collision_cell_skip(
                            pre.display, pre.memory, index, x0, y0, i as int, j as int,
                        );
                    }
                }
                j = j + 1;
            }
            proof {
                lemma_draw_row_advance(pre.display, pre.memory, index, x0, y0, i as int);
            }
            i = i + 1;
        }
        proof {
            lemma_draw_complete(pre.display, pre.memory, index, x0, y0, h as int);
        }
        collision
    }
}

/// Toggling the pixel of a drawn sprite cell advances the partial blit by
/// one cell in row-major order.
proof fn lemma_draw_cell_step(
    disp: Seq<bool>,
    mem: Seq<u8>,
    index: int,
    x0: int,
    y0: int,
    i: int,
    j: int,
    before: Seq<bool>,
    after: Seq<bool>,
)
    requires
        disp.len() == 2048,
        0 <= x0 < 256,
        0 <= y0 < 256,
        0 <= i < 16,
        0 <= j < 8,
        sprite_bit(mem[index + i], j),
        before =~= draw_display_partial(disp, mem, index, x0, y0, i, j),
        after =~= before.update(
            pixel_index((x0 + j) % 64, (y0 + i) % 32),
            !before[pixel_index((x0 + j) % 64, (y0 + i) % 32)],
        ),
    ensures
        after =~= draw_display_partial(disp, mem, index, x0, y0, i, j + 1),
{
    lemma_col_round_trip(x0, j);
    lemma_row_round_trip(y0, i);
    let tx = (x0 + j) % 64;
    let ty = (y0 + i) % 32;
    lemma_pixel_split(tx, ty);
    let pstar = pixel_index(tx, ty);
    assert forall|p: int| 0 <= p < 2048 implies after[p] == draw_display_partial(
        disp,
        mem,
        index,
        x0,
        y0,
        i,
        j + 1,
    )[p] by {
        let pi = (p / 64 - y0) % 32;
        let pj = (p % 64 - x0) % 64;
        if p == pstar {
            assert(pi == i && pj == j);
        } else {
            // p's sprite cell cannot be (i, j): that cell covers pstar only.
            if pi == i && pj == j {
                lemma_pixel_decompose(p);
                lemma_col_unwrap(x0, p % 64);
                lemma_row_unwrap(y0, p / 64);
                assert(false);
            }
        }
    }
}

/// A flat display index is its row times 64 plus its column.
proof fn lemma_pixel_decompose(p: int)
    requires
        0 <= p < 2048,
    ensures
        0 <= p % 64 < 64,
        0 <= p / 64 < 32,
        p == pixel_index(p % 64, p / 64),
{
    lemma_fundamental_div_mod(p, 64);
}

/// Skipping a clear sprite cell leaves the partial blit unchanged.
proof fn lemma_draw_cell_skip(
    disp: Seq<bool>,
    mem: Seq<u8>,
    index: int,
    x0: int,
    y0: int,
    i: int,
    j: int,
)
    requires
        0 <= i,
        0 <= j < 8,
        !sprite_bit(mem[index + i], j),
    ensures
        draw_display_partial(disp, mem, index, x0, y0, i, j) =~= draw_display_partial(
            disp,
            mem,
            index,
            x0,
            y0,
            i,
            j + 1,
        ),
{
}

/// Drawing a lit or unlit cell extends the collision-so-far by exactly
/// that cell's collision.
proof fn lemma_collision_cell_step(
    disp: Seq<bool>,
    mem: Seq<u8>,
    index: int,
    x0: int,
    y0: int,
    i: int,
    j: int,
    before: bool,
    after: bool,
)
    requires
        0 <= i,
        0 <= j < 8,
        sprite_bit(mem[index + i], j),
        before == draw_collision_partial(disp, mem, index, x0, y0, i, j),
        after == (before || disp[pixel_index((x0 + j) % 64, (y0 + i) % 32)]),
    ensures
        after == draw_collision_partial(disp, mem, index, x0, y0, i, j + 1),
{
    if after {
        if before {
            let (a, b) = choose|a: int, b: int|
                0 <= a && 0 <= b < 8 && cell_before(a, b, i, j) && #[trigger] sprite_bit(mem[index + a], b)
                    && disp[pixel_index((x0 + b) % 64, (y0 + a) % 32)];
            assert(cell_before(a, b, i, j + 1));
        } else {
            assert(cell_before(i, j, i, j + 1));
        }
        assert(draw_collision_partial(disp, mem, index, x0, y0, i, j + 1));
    } else {
        assert forall|a: int, b: int|
            0 <= a && 0 <= b < 8 && cell_before(a, b, i, j + 1) && #[trigger] sprite_bit(
                mem[index + a],
                b,
            ) implies !disp[pixel_index((x0 + b) % 64, (y0 + a) % 32)] by {
            if cell_before(a, b, i, j) {
                assert(!draw_collision_partial(disp, mem, index, x0, y0, i, j));
            }
        }
    }
}

/// Skipping a clear sprite cell leaves the collision-so-far unchanged.
proof fn lemma_collision_cell_skip(
    disp: Seq<bool>,
    mem: Seq<u8>,
    index: int,
    x0: int,
    y0: int,
    i: int,
    j: int,
)
    requires
        0 <= i,
        0 <= j < 8,
        !sprite_bit(mem[index + i], j),
    ensures
        draw_collision_partial(disp, mem, index, x0, y0, i, j) == draw_collision_partial(
            disp,
            mem,
            index,
            x0,
            y0,
            i,
            j + 1,
        ),
{
    if draw_collision_partial(disp, mem, index, x0, y0, i, j) {
        let (a, b) = choose|a: int, b: int|
            0 <= a && 0 <= b < 8 && cell_before(a, b, i, j) && #[trigger] sprite_bit(mem[index + a], b)
                && disp[pixel_index((x0 + b) % 64, (y0 + a) % 32)];
        assert(cell_before(a, b, i, j + 1));
        assert(draw_collision_partial(disp, mem, index, x0, y0, i, j + 1));
    } else {
        assert forall|a: int, b: int|
            0 <= a && 0 <= b < 8 && cell_before(a, b, i, j + 1) && #[trigger] sprite_bit(
                mem[index + a],
                b,
            ) implies !disp[pixel_index((x0 + b) % 64, (y0 + a) % 32)] by {
            if cell_before(a, b, i, j) {
                assert(!draw_collision_partial(disp, mem, index, x0, y0, i, j));
            }
        }
    }
}

/// A cursor past the last column is the cursor at the start of the next
/// row.
proof fn lemma_draw_row_advance(
    disp: Seq<bool>,
    mem: Seq<u8>,
    index: int,
    x0: int,
    y0: int,
    i: int,
)
    ensures
        draw_display_partial(disp, mem, index, x0, y0, i, 8) =~= draw_display_partial(
            disp,
            mem,
            index,
            x0,
            y0,
            i + 1,
            0,
        ),
        draw_collision_partial(disp, mem, index, x0, y0, i, 8) == draw_collision_partial(
            disp,
            mem,
            index,
            x0,
            y0,
            i + 1,
            0,
        ),
{
    if draw_collision_partial(disp, mem, index, x0, y0, i, 8) {
        let (a, b) = choose|a: int, b: int|
            0 <= a && 0 <= b < 8 && cell_before(a, b, i, 8) && #[trigger] sprite_bit(mem[index + a], b)
                && disp[pixel_index((x0 + b) % 64, (y0 + a) % 32)];
        assert(cell_before(a, b, i + 1, 0));
        assert(draw_collision_partial(disp, mem, index, x0, y0, i + 1, 0));
    }
    if draw_collision_partial(disp, mem, index, x0, y0, i + 1, 0) {
        let (a, b) = choose|a: int, b: int|
            0 <= a && 0 <= b < 8 && cell_before(a, b, i + 1, 0) && #[trigger] sprite_bit(mem[index + a], b)
                && disp[pixel_index((x0 + b) % 64, (y0 + a) % 32)];
        assert(cell_before(a, b, i, 8));
        assert(draw_collision_partial(disp, mem, index, x0, y0, i, 8));
    }
}

/// The partial blit with the cursor past the last row is the full blit.
proof fn lemma_draw_complete(
    disp: Seq<bool>,
    mem: Seq<u8>,
    index: int,
    x0: int,
    y0: int,
    h: int,
)
    requires
        0 <= h,
    ensures
        draw_display_partial(disp, mem, index, x0, y0, h, 0) =~= draw_display(
            disp,
            mem,
            index,
            x0,
            y0,
            h,
        ),
        draw_collision_partial(disp, mem, index, x0, y0, h, 0) == draw_collision(
            disp,
            mem,
            index,
            x0,
            y0,
            h,
        ),
{
    if draw_collision_partial(disp, mem, index, x0, y0, h, 0) {
        let (a, b) = choose|a: int, b: int|
            0 <= a && 0 <= b < 8 && cell_before(a, b, h, 0) && #[trigger] sprite_bit(mem[index + a], b)
                && disp[pixel_index((x0 + b) % 64, (y0 + a) % 32)];
        assert(draw_collision(disp, mem, index, x0, y0, h));
    }
    if draw_collision(disp, mem, index, x0, y0, h) {
        let (a, b) = choose|a: int, b: int|
            0 <= a < h && 0 <= b < 8 && #[trigger] sprite_bit(mem[index + a], b) && disp[pixel_index(
                (x0 + b) % 64,
                (y0 + a) % 32,
            )];
        assert(cell_before(a, b, h, 0));
        assert(draw_collision_partial(disp, mem, index, x0, y0, h, 0));
    }
}

/// Drawing the same sprite at the same location twice restores the prior
/// pixel state, and the second draw collides exactly where the first draw
/// turned a pixel on.
pub proof fn lemma_draw_twice(disp: Seq<bool>, mem: Seq<u8>, index: int, x0: int, y0: int, h: int)
    requires
        disp.len() == 2048,
        0 <= x0 < 256,
        0 <= y0 < 256,
        0 <= h < 16,
    ensures
        draw_display(draw_display(disp, mem, index, x0, y0, h), mem, index, x0, y0, h) =~= disp,
        draw_collision(draw_display(disp, mem, index, x0, y0, h), mem, index, x0, y0, h) == (
        exists|i: int, j: int|
            0 <= i < h && 0 <= j < 8 && #[trigger] sprite_bit(mem[index + i], j) && !disp[pixel_index(
                (x0 + j) % 64,
                (y0 + i) % 32,
            )]),
{
    let once = draw_display(disp, mem, index, x0, y0, h);
    // Every drawn cell's pixel is toggled by the first draw.
    assert forall|i: int, j: int| 0 <= i < h && 0 <= j < 8 implies once[pixel_index(
        (x0 + j) % 64,
        (y0 + i) % 32,
    )] == (disp[pixel_index((x0 + j) % 64, (y0 + i) % 32)] != #[trigger] sprite_bit(
        mem[index + i],
        j,
    )) by {
        lemma_col_round_trip(x0, j);
        lemma_row_round_trip(y0, i);
        lemma_pixel_split((x0 + j) % 64, (y0 + i) % 32);
    }
    if draw_collision(once, mem, index, x0, y0, h) {
        let (a, b) = choose|a: int, b: int|
            0 <= a < h && 0 <= b < 8 && #[trigger] sprite_bit(mem[index + a], b) && once[pixel_index(
                (x0 + b) % 64,
                (y0 + a) % 32,
            )];
        assert(!disp[pixel_index((x0 + b) % 64, (y0 + a) % 32)]);
    }
    if exists|i: int, j: int|
        0 <= i < h && 0 <= j < 8 && #[trigger] sprite_bit(mem[index + i], j) && !disp[pixel_index(
            (x0 + j) % 64,
            (y0 + i) % 32,
        )] {
        let (a, b) = choose|a: int, b: int|
            0 <= a < h && 0 <= b < 8 && #[trigger] sprite_bit(mem[index + a], b) && !disp[pixel_index(
                (x0 + b) % 64,
                (y0 + a) % 32,
            )];
        assert(once[pixel_index((x0 + b) % 64, (y0 + a) % 32)]);
        assert(draw_collision(once, mem, index, x0, y0, h));
    }
}

} // verus!
