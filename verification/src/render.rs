//! Turning the character grid into pixels.

use vstd::prelude::*;
use ratatui::buffer::Buffer;

verus! {

/// Turns a grid of terminal cells into pixels, each cell a rectangle of
/// `cell_width` by `cell_height` pixels.
pub struct Rasterizer {
    pub cell_width: u32,
    pub cell_height: u32,
}

impl Rasterizer {
    /// A rasterizer for cells of `cell_width` by `cell_height` pixels.
    pub fn new(cell_width: u32, cell_height: u32) -> (rasterizer: Self)
        ensures
            rasterizer.cell_width == cell_width,
            rasterizer.cell_height == cell_height,
    {
        Self { cell_width, cell_height }
    }

    /// Produces the frame of `tick` for the grid `buffer` in `target_argb`,
    /// a frame of `width_px` by `height_px` pixels of four bytes each. No
    /// cell is drawn yet: the frame keeps the bytes it came with, so what
    /// the caller painted before is what is shown.
    pub fn rasterize(
        &self,
        buffer: &Buffer,
        target_argb: &mut [u8],
        width_px: u32,
        height_px: u32,
        tick: u64,
    )
        ensures
            final(target_argb)@ == old(target_argb)@,
    {
    }
}

} // verus!
