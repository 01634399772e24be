//! How a sprite comes onto the display bit by bit: the state of the
//! framebuffer after part of a sprite was drawn, and the steps that lead
//! from no row to all of them.

use vstd::prelude::*;
use crate::emulator::display::cell_index;
use crate::emulator::machine::{sprite_bit, Machine};

verus! {

impl Machine {
    /// Whether the part of the sprite drawn so far has a set bit on the
    /// pixel `(px, py)`: the part is the first `rows` rows and, of the row
    /// after them, the first `cols` columns.
    pub(crate) closed spec fn lights_upto(
        self,
        sx: int,
        sy: int,
        rows: int,
        cols: int,
        px: int,
        py: int,
    ) -> bool {
        &&& sx <= px < sx + 8
        &&& sy <= py
        &&& (py < sy + rows || (py == sy + rows && px < sx + cols))
        &&& sprite_bit(self.memory[self.i + (py - sy)], px - sx)
    }

    /// The same of the pixel at position `k` of the framebuffer.
    pub(crate) closed spec fn lights_cell(self, sx: int, sy: int, rows: int, cols: int, k: int) -> bool {
        self.lights_upto(sx, sy, rows, cols, k % 64, k / 64)
    }

    /// The framebuffer after that part of the sprite was drawn.
    pub(crate) closed spec fn drawn_upto(self, sx: int, sy: int, rows: int, cols: int) -> Seq<bool> {
        Seq::new(2048, |k: int| self.screen.pixels[k] != self.lights_cell(sx, sy, rows, cols, k))
    }

    /// Whether that part of the sprite turned a lit pixel off.
    pub(crate) closed spec fn collides_upto(self, sx: int, sy: int, rows: int, cols: int) -> bool {
        exists|k: int|
            0 <= k < 2048 && #[trigger] self.screen.pixels[k] && self.lights_cell(
                sx,
                sy,
                rows,
                cols,
                k,
            )
    }

    /// A sprite without rows changes no pixel and collides with none.
    pub(crate) proof fn lemma_no_rows(self, sx: int, sy: int)
        requires
            self.screen.wf(),
        ensures
            self.sprite_drawn(sx, sy, 0) == self.screen.pixels,
            !self.sprite_collides(sx, sy, 0),
    {
        assert(self.sprite_drawn(sx, sy, 0) =~= self.screen.pixels);
    }

    /// Before the first column of a row, the part drawn is the rows above.
    pub(crate) proof fn lemma_row_start(self, sx: int, sy: int, rows: int)
        ensures
            self.drawn_upto(sx, sy, rows, 0) == self.sprite_drawn(sx, sy, rows),
            self.collides_upto(sx, sy, rows, 0) == self.sprite_collides(sx, sy, rows),
    {
        assert forall|px: int, py: int|
            self.lights_upto(sx, sy, rows, 0, px, py) == self.sprite_lights(
                sx,
                sy,
                rows,
                px,
                py,
            ) by {}
        assert(self.drawn_upto(sx, sy, rows, 0) =~= self.sprite_drawn(sx, sy, rows));
    }

    /// After the last column of a row, the part drawn includes that row.
    pub(crate) proof fn lemma_row_end(self, sx: int, sy: int, rows: int)
        ensures
            self.drawn_upto(sx, sy, rows, 8) == self.sprite_drawn(sx, sy, rows + 1),
            self.collides_upto(sx, sy, rows, 8) == self.sprite_collides(sx, sy, rows + 1),
    {
        assert forall|px: int, py: int|
            self.lights_upto(sx, sy, rows, 8, px, py) == self.sprite_lights(
                sx,
                sy,
                rows + 1,
                px,
                py,
            ) by {}
        assert(self.drawn_upto(sx, sy, rows, 8) =~= self.sprite_drawn(sx, sy, rows + 1));
    }

    /// One more column: if its bit is set and falls on the display, the
    /// pixel under it flips, and a collision is added if that pixel was lit;
    /// otherwise nothing changes.
    pub(crate) proof fn lemma_next_column(
        self,
        sx: int,
        sy: int,
        rows: int,
        cols: int,
        pixels: Seq<bool>,
        next: Seq<bool>,
    )
        requires
            self.screen.wf(),
            0 <= sx < 64,
            0 <= sy < 32,
            0 <= rows,
            0 <= cols < 8,
            pixels == self.drawn_upto(sx, sy, rows, cols),
            next == if self.bit_on_display(sx, sy, rows, cols) {
                pixels.update(
                    cell_index(sx + cols, sy + rows),
                    !pixels[cell_index(sx + cols, sy + rows)],
                )
            } else {
                pixels
            },
        ensures
            next == self.drawn_upto(sx, sy, rows, cols + 1),
            self.collides_upto(sx, sy, rows, cols + 1) == (self.collides_upto(sx, sy, rows, cols)
                || (self.bit_on_display(sx, sy, rows, cols) && pixels[cell_index(
                sx + cols,
                sy + rows,
            )])),
    {
        let k0 = cell_index(sx + cols, sy + rows);
        let lit = self.bit_on_display(sx, sy, rows, cols);
        assert forall|k: int| 0 <= k < 2048 implies #[trigger] self.lights_cell(
            sx,
            sy,
            rows,
            cols + 1,
            k,
        ) == (self.lights_cell(sx, sy, rows, cols, k) || (lit && k == k0)) by {
            if k % 64 == sx + cols && k / 64 == sy + rows {
                assert(k == k0);
            }
            if lit && k == k0 {
                assert(k % 64 == sx + cols && k / 64 == sy + rows);
            }
        }
        if lit {
            assert(0 <= k0 < 2048);
            assert(k0 % 64 == sx + cols && k0 / 64 == sy + rows);
            assert(!self.lights_cell(sx, sy, rows, cols, k0));
            assert(pixels[k0] == self.screen.pixels[k0]);
        }
        assert(next =~= self.drawn_upto(sx, sy, rows, cols + 1));
        if self.collides_upto(sx, sy, rows, cols + 1) {
            let k = choose|k: int|
                0 <= k < 2048 && #[trigger] self.screen.pixels[k] && self.lights_cell(
                    sx,
                    sy,
                    rows,
                    cols + 1,
                    k,
                );
            if !(lit && k == k0) {
                assert(self.screen.pixels[k] && self.lights_cell(sx, sy, rows, cols, k));
            }
        }
        if self.collides_upto(sx, sy, rows, cols) {
            let k = choose|k: int|
                0 <= k < 2048 && #[trigger] self.screen.pixels[k] && self.lights_cell(
                    sx,
                    sy,
                    rows,
                    cols,
                    k,
                );
            assert(self.screen.pixels[k] && self.lights_cell(sx, sy, rows, cols + 1, k));
        }
        if lit && pixels[k0] {
            assert(self.screen.pixels[k0] && self.lights_cell(sx, sy, rows, cols + 1, k0));
        }
    }

    /// Whether bit `cols` of sprite row `rows` is set and, with the sprite's
    /// corner at `(sx, sy)`, falls on the display.
    pub(crate) open spec fn bit_on_display(self, sx: int, sy: int, rows: int, cols: int) -> bool {
        &&& sprite_bit(self.memory[self.i + rows], cols)
        &&& sx + cols < 64
        &&& sy + rows < 32
    }
}

} // verus!
