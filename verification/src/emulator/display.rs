//! The framebuffer: 64 by 32 monochrome pixels and a flag that tells the
//! host when they have changed.

use vstd::prelude::*;

verus! {

/// Pixels per row.
pub const DISPLAY_WIDTH: usize = 64;

/// Number of rows.
pub const DISPLAY_HEIGHT: usize = 32;

/// What a display holds: its pixels in row-major order, `(0, 0)` at the top
/// left, and whether they changed since the host last presented them.
pub struct Screen {
    pub pixels: Seq<bool>,
    pub dirty: bool,
}

/// Position of the pixel `(x, y)` in row-major order.
pub open spec fn cell_index(x: int, y: int) -> int {
    y * 64 + x
}

impl Screen {
    /// Every pixel off, nothing to present.
    pub open spec fn blank() -> Screen {
        Screen { pixels: Seq::new(2048, |k: int| false), dirty: false }
    }

    /// One cell for each pixel.
    pub open spec fn wf(self) -> bool {
        self.pixels.len() == 2048
    }

    /// Whether the pixel `(x, y)` is on.
    pub open spec fn at(self, x: int, y: int) -> bool {
        self.pixels[cell_index(x, y)]
    }

    /// Every pixel off, and the change flagged.
    pub open spec fn cleared(self) -> Screen {
        Screen { pixels: Seq::new(2048, |k: int| false), dirty: true }
    }
}

/// A single contiguous buffer, indexed by `y * 64 + x`.
#[derive(Debug)]
pub struct Display {
    array: [bool; 2048],
    dirty: bool,
}

impl View for Display {
    type V = Screen;

    closed spec fn view(&self) -> Screen {
        Screen { pixels: self.array@, dirty: self.dirty }
    }
}

impl Display {
    /// The view of any display has one cell for each pixel.
    pub proof fn lemma_wf(&self)
        ensures
            self@.wf(),
    {
    }

    /// Creates a display with every pixel off.
    pub fn new() -> (display: Self)
        ensures
            display@ == Screen::blank(),
    {
        let display = Display { array: [false; 2048], dirty: false };
        assert(display@.pixels =~= Screen::blank().pixels);
        display
    }

    /// Converts `(x, y)` into a position in the buffer: `y` full rows, then
    /// `x` cells into the next.
    pub fn transform_cords(x: usize, y: usize) -> (index: usize)
        requires
            x < DISPLAY_WIDTH,
            y < DISPLAY_HEIGHT,
        ensures
            index == cell_index(x as int, y as int),
            index < 2048,
    {
        (y * DISPLAY_WIDTH) + x
    }

    /// Sets the pixel `(x, y)`; no other pixel changes, nor the flag.
    pub fn set(&mut self, x: usize, y: usize, v: bool)
        requires
            x < DISPLAY_WIDTH,
            y < DISPLAY_HEIGHT,
        ensures
            final(self)@ == (Screen {
                pixels: old(self)@.pixels.update(cell_index(x as int, y as int), v),
                ..old(self)@
            }),
    {
        self.array[Self::transform_cords(x, y)] = v
    }

    /// Reads the pixel `(x, y)`.
    pub fn get(&self, x: usize, y: usize) -> (v: bool)
        requires
            x < DISPLAY_WIDTH,
            y < DISPLAY_HEIGHT,
        ensures
            v == self@.at(x as int, y as int),
    {
        self.array[Self::transform_cords(x, y)]
    }

    /// Reads the cell at a position of the buffer.
    pub fn cell(&self, index: usize) -> (v: bool)
        requires
            index < 2048,
        ensures
            v == self@.pixels[index as int],
    {
        self.array[index]
    }

    /// Turns every pixel off and flags the change.
    pub fn clear(&mut self)
        ensures
            final(self)@ == old(self)@.cleared(),
    {
        self.array = [false; 2048];
        self.dirty = true;
        assert(self@.pixels =~= old(self)@.cleared().pixels);
    }

    /// Whether the pixels changed since the flag was last lowered.
    pub fn is_dirty(&self) -> (dirty: bool)
        ensures
            dirty == self@.dirty,
    {
        self.dirty
    }

    /// Flags a change of the pixels.
    pub fn mark_dirty(&mut self)
        ensures
            final(self)@ == (Screen { dirty: true, ..old(self)@ }),
    {
        self.dirty = true;
    }

    /// Lowers the flag, once the host has presented the pixels.
    pub fn mark_clean(&mut self)
        ensures
            final(self)@ == (Screen { dirty: false, ..old(self)@ }),
    {
        self.dirty = false;
    }
}

impl Default for Display {
    fn default() -> (display: Self)
        ensures
            display@ == Screen::blank(),
    {
        Display::new()
    }
}

} // verus!
