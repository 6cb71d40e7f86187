//! The character grid of the terminal library, as far as the form's
//! background reads and writes it.
//!
//! The grid is ratatui's `Buffer`. Nothing of it is verified here: the
//! functions below say what the calls do to the cells, and the drawing code
//! is proved against that.

use vstd::prelude::*;
use ratatui::buffer::Buffer;
use ratatui::style::{Color, Style};

verus! {

/// ratatui's grid of terminal cells; opaque to the verifier.
#[verifier::external_type_specification]
#[verifier::external_body]
pub struct ExBuffer(Buffer);

/// A foreground colour as the background drawing sees it: a 24-bit colour
/// with its three channels, or anything else.
#[derive(Debug, Clone, Copy, PartialEq, Eq, Structural)]
pub enum Paint {
    Rgb(u8, u8, u8),
    Other,
}

/// A colour that the drawing code hands to the grid: the terminal's white,
/// or a 24-bit colour by its code `0x00RRGGBB`.
#[derive(Debug, Clone, Copy, PartialEq, Eq, Structural)]
pub enum Ink {
    White,
    Code(u32),
}

/// A rectangle of cells: the column and row of its first cell and its size.
#[derive(Debug, Clone, Copy, PartialEq, Eq, Structural)]
pub struct Area {
    pub x: u16,
    pub y: u16,
    pub width: u16,
    pub height: u16,
}

/// What a cell shows: its text and its foreground colour.
pub struct Look {
    pub symbol: Seq<char>,
    pub fg: Paint,
}

/// The cells of a grid by their position (column, row).
pub uninterp spec fn grid_cells(grid: Buffer) -> Map<(u16, u16), Look>;

/// The rectangle that a grid says it covers.
pub uninterp spec fn grid_area(grid: Buffer) -> Area;

/// The number of cells that a grid stores.
pub uninterp spec fn grid_len(grid: Buffer) -> nat;

impl Area {
    /// Whether the position (`x`, `y`) lies in the rectangle.
    pub open spec fn contains(self, x: int, y: int) -> bool {
        self.x <= x < self.x + self.width && self.y <= y < self.y + self.height
    }

    /// Whether the rectangle stays within 16-bit coordinates.
    pub open spec fn fits(self) -> bool {
        self.x + self.width <= u16::MAX && self.y + self.height <= u16::MAX
    }
}

/// The colour that the 24-bit code `0x00RRGGBB` stands for.
pub open spec fn paint_of(code: u32) -> Paint {
    Paint::Rgb((code >> 16) as u8, (code >> 8) as u8, code as u8)
}

/// How a cell's foreground reads once it was set to `ink`.
pub open spec fn ink_paint(ink: Ink) -> Paint {
    match ink {
        Ink::White => Paint::Other,
        Ink::Code(code) => paint_of(code),
    }
}

/// A grid whose rectangle stays within 16-bit coordinates and which stores
/// one cell for each position of it: every position of the rectangle can
/// then be read and written.
pub open spec fn grid_ready(grid: Buffer) -> bool {
    grid_area(grid).fits() && grid_len(grid) == grid_area(grid).width * grid_area(grid).height
}

/// Reads the public field `area` of the `Buffer`.
#[verifier::external_body]
pub(crate) fn area_of(grid: &Buffer) -> (area: Area)
    ensures
        area == grid_area(*grid),
{
    Area { x: grid.area.x, y: grid.area.y, width: grid.area.width, height: grid.area.height }
}

/// Reads the length of the public field `content` of the `Buffer`.
#[verifier::external_body]
pub(crate) fn len_of(grid: &Buffer) -> (len: usize)
    ensures
        len == grid_len(*grid),
{
    grid.content.len()
}

/// `Buffer`'s index operator and `Cell::style`: the foreground colour of the
/// cell at (`x`, `y`). The index operator panics outside the rectangle, so
/// the position has to lie in it.
#[verifier::external_body]
pub(crate) fn fg_at(grid: &Buffer, x: u16, y: u16) -> (fg: Paint)
    requires
        grid_ready(*grid),
        grid_area(*grid).contains(x as int, y as int),
    ensures
        fg == grid_cells(*grid)[(x, y)].fg,
{
    match grid[(x, y)].style().fg {
        Some(Color::Rgb(r, g, b)) => Paint::Rgb(r, g, b),
        _ => Paint::Other,
    }
}

/// `Buffer`'s mutable index operator, `Cell::set_char` and `Cell::set_style`
/// with a style that sets the foreground to `Color::from_u32(code)` and
/// nothing else: the cell at (`x`, `y`) shows `glyph` in that colour, and
/// every other cell, the rectangle and the number of cells stay as they are.
#[verifier::external_body]
pub(crate) fn put(grid: &mut Buffer, x: u16, y: u16, glyph: char, code: u32)
    requires
        grid_ready(*old(grid)),
        grid_area(*old(grid)).contains(x as int, y as int),
    ensures
        grid_area(*final(grid)) == grid_area(*old(grid)),
        grid_len(*final(grid)) == grid_len(*old(grid)),
        grid_cells(*final(grid)) == grid_cells(*old(grid)).insert(
            (x, y),
            Look { symbol: seq![glyph], fg: paint_of(code) },
        ),
{
    grid[(x, y)].set_char(glyph).set_style(Style::default().fg(Color::from_u32(code)));
}

/// Tells whether every position of the grid's rectangle can be read and
/// written.
pub fn is_ready(grid: &Buffer) -> (ready: bool)
    ensures
        ready == grid_ready(*grid),
{
    let area = area_of(grid);
    let len = len_of(grid);
    if area.width > u16::MAX - area.x || area.height > u16::MAX - area.y {
        return false;
    }
    assert(area.width * area.height <= 0xFFFF * 0xFFFF) by (nonlinear_arith)
        requires
            area.width <= 0xFFFF,
            area.height <= 0xFFFF,
    ;
    let cells: u32 = area.width as u32 * area.height as u32;
    len as u64 == cells as u64
}

} // verus!
