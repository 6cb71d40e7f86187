//! The animated background of the login form: a fire that rises from the
//! bottom row of the grid and cools on its way up.

use vstd::prelude::*;
use ratatui::buffer::Buffer;
use crate::grid::{area_of, fg_at, grid_area, grid_cells, grid_len, grid_ready, is_ready, paint_of, put, Area, Look, Paint};
use crate::tui::AppState;

verus! {

/// The colours of the fire as `0x00RRGGBB`, from black to white.
pub const FIRE_PALETTE: [u32; 36] = [
    0x00000000,
    0x000D0000,
    0x001B0000,
    0x00280000,
    0x00350000,
    0x00430000,
    0x00500000,
    0x005D0000,
    0x006B0000,
    0x00780000,
    0x00870900,
    0x00961200,
    0x00A51B00,
    0x00B42400,
    0x00C32C00,
    0x00D23500,
    0x00E13E00,
    0x00F04700,
    0x00FF5000,
    0x00FF5D00,
    0x00FF6B00,
    0x00FF7800,
    0x00FF8500,
    0x00FF9300,
    0x00FFA000,
    0x00FFAD00,
    0x00FFBB00,
    0x00FFC800,
    0x00FFCF20,
    0x00FFD640,
    0x00FFDD60,
    0x00FFE480,
    0x00FFEA9F,
    0x00FFF1BF,
    0x00FFF8DF,
    0x00FFFFFF,
];

/// Number of colours in the palette.
pub const PALETTE_LEN: usize = 36;

/// The colour with which the bottom row burns: hot, not the hottest.
pub const FIRE_SOURCE: usize = 30;

/// The character of every cell of the fire.
pub const FIRE_GLYPH: char = '\u{2592}';

/// The mixing function behind [`pseudo_rand`].
pub open spec fn mixed(tick: u64, x: u16, y: u16) -> u16 {
    let seed: u32 = (tick as u32) ^ ((x as u32) << 16) ^ (y as u32);
    let first: u32 = seed ^ (seed >> 16);
    let second: u32 = first.wrapping_mul(0x7feb_352d);
    let third: u32 = second ^ (second >> 15);
    let fourth: u32 = third.wrapping_mul(0x846c_a68b);
    let last: u32 = fourth ^ (fourth >> 16);
    (last & 0xFFFF) as u16
}

/// A number that looks random and depends on nothing but the tick and the
/// cell: the low 32 bits of the tick, the column shifted up by 16 bits and
/// the row are folded together and stirred by two rounds of shift, exclusive
/// or and wrapping multiplication; the low 16 bits of that are the result.
pub fn pseudo_rand(tick: u64, x: u16, y: u16) -> (value: u16)
    ensures
        value == mixed(tick, x, y),
{
    let mut v: u32 = (#[verifier::truncate] (tick as u32)) ^ ((x as u32) << 16) ^ (y as u32);
    v ^= v >> 16;
    v = v.wrapping_mul(0x7feb_352d);
    v ^= v >> 15;
    v = v.wrapping_mul(0x846c_a68b);
    v ^= v >> 16;
    #[verifier::truncate]
    ((v & 0xFFFF) as u16)
}

/// The first place from `from` on at which the palette holds `color`.
pub open spec fn position_from(color: Paint, from: int) -> Option<int>
    decreases 36 - from,
{
    if from < 0 || from >= 36 {
        None
    } else if paint_of(FIRE_PALETTE[from]) == color {
        Some(from)
    } else {
        position_from(color, from + 1)
    }
}

/// The place of `color` in the palette, and 0 for a colour that is not one
/// of the fire's.
pub open spec fn heat_of(color: Paint) -> int {
    match position_from(color, 0) {
        Some(i) => i,
        None => 0,
    }
}

/// Finds `color` in the palette.
pub fn palette_index(color: Paint) -> (index: Option<usize>)
    ensures
        match index {
            Some(i) => position_from(color, 0) == Some(i as int) && i < PALETTE_LEN,
            None => position_from(color, 0).is_none(),
        },
{
    let mut i: usize = 0;
    while i < PALETTE_LEN
        invariant
            i <= 36,
            position_from(color, 0) == position_from(color, i as int),
        decreases 36 - i,
    {
        let entry: u32 = FIRE_PALETTE[i];
        let red: u8 = #[verifier::truncate] ((entry >> 16) as u8);
        let green: u8 = #[verifier::truncate] ((entry >> 8) as u8);
        let blue: u8 = #[verifier::truncate] (entry as u8);
        match color {
            Paint::Rgb(r, g, b) => {
                if r == red && g == green && b == blue {
                    return Some(i);
                }
            },
            Paint::Other => {},
        }
        i += 1;
    }
    None
}

/// Two colour codes of 24 bits with the same three channels are the same.
proof fn lemma_channels_tell_codes_apart(a: u32, b: u32)
    by (bit_vector)
    requires
        a < 0x0100_0000,
        b < 0x0100_0000,
        (a >> 16) as u8 == (b >> 16) as u8,
        (a >> 8) as u8 == (b >> 8) as u8,
        a as u8 == b as u8,
    ensures
        a == b,
{
}

/// Every colour of the palette is found at its own place.
pub proof fn lemma_palette_places(index: int)
    requires
        0 <= index < 36,
    ensures
        heat_of(paint_of(FIRE_PALETTE[index])) == index,
{
    lemma_found_from(index, 0);
}

/// Searching from `from`, at or before `index`, finds the colour at `index`.
proof fn lemma_found_from(index: int, from: int)
    requires
        0 <= from <= index < 36,
    ensures
        position_from(paint_of(FIRE_PALETTE[index]), from) == Some(index),
    decreases index - from,
{
    if from < index {
        if paint_of(FIRE_PALETTE[from]) == paint_of(FIRE_PALETTE[index]) {
            lemma_channels_tell_codes_apart(FIRE_PALETTE[from], FIRE_PALETTE[index]);
        }
        lemma_found_from(index, from + 1);
    }
}

/// The column from which the cell in column `x` takes its heat: up to two
/// columns to either side, as `rand` says, and never outside the rectangle.
pub open spec fn sample_column(area: Area, x: int, rand: u16) -> int {
    let shifted = x + (rand % 5) - 2;
    if shifted < area.x {
        area.x as int
    } else if shifted > area.x + area.width - 1 {
        area.x + area.width - 1
    } else {
        shifted
    }
}

/// The heat that rises from a cell of heat `below`: it cools by two steps,
/// by one or not at all, as `rand` says, and with the third bit of `rand`
/// set only a third of that cooling is taken.
pub open spec fn risen(below: int, rand: u16) -> int {
    let step: int = if rand % 5 == 0 {
        2
    } else if rand % 5 == 1 {
        1
    } else {
        0
    };
    let cooled: int = if below >= step {
        below - step
    } else {
        0
    };
    if rand & 4 == 0 {
        cooled
    } else {
        (below * 2 + cooled) / 3
    }
}

/// The heat that a cell of heat `current` takes when `target` rises into
/// it: the target if that is no cooler, else one step less than it had.
pub open spec fn settled(target: int, current: int) -> int {
    if target < current {
        if current >= 1 {
            current - 1
        } else {
            0
        }
    } else {
        target
    }
}

/// The heat of the cell at (`x`, `y`) once the fire is drawn over `cells`
/// at `tick`. The bottom row burns at the source heat or one step below;
/// every other cell takes what rises from the row below it.
pub open spec fn heat(cells: Map<(u16, u16), Look>, area: Area, tick: u64, x: int, y: int) -> int
    decreases area.y + area.height - y,
{
    let rand = mixed(tick, x as u16, y as u16);
    if y >= area.y + area.height - 1 {
        FIRE_SOURCE - (rand & 1)
    } else {
        let below = heat(cells, area, tick, sample_column(area, x, rand), y + 1);
        settled(risen(below, rand), heat_of(cells[(x as u16, y as u16)].fg))
    }
}

/// What the cell at (`x`, `y`) shows once the fire is drawn.
pub open spec fn flame(cells: Map<(u16, u16), Look>, area: Area, tick: u64, x: int, y: int) -> Look {
    Look { symbol: seq![FIRE_GLYPH], fg: paint_of(FIRE_PALETTE[heat(cells, area, tick, x, y)]) }
}

/// Whether the fire is drawn over every cell of `after`'s rectangle, with
/// `before` underneath, and nothing else has changed.
pub open spec fn fire_drawn(before: Buffer, after: Buffer, tick: u64) -> bool {
    let area = grid_area(before);
    &&& grid_area(after) == area
    &&& grid_len(after) == grid_len(before)
    &&& forall|x: u16, y: u16|
        area.contains(x as int, y as int) ==> #[trigger] grid_cells(after)[(x, y)] == flame(
            grid_cells(before),
            area,
            tick,
            x as int,
            y as int,
        )
    &&& forall|x: u16, y: u16|
        !area.contains(x as int, y as int) ==> #[trigger] grid_cells(after)[(x, y)] == grid_cells(
            before,
        )[(x, y)]
}

/// What drawing the background makes of a grid: the fire over a grid that
/// has cells and stores one for each position of its rectangle, and no
/// change to any other grid.
pub open spec fn background_drawn(before: Buffer, after: Buffer, tick: u64) -> bool {
    if grid_ready(before) && grid_area(before).width > 0 && grid_area(before).height > 0 {
        fire_drawn(before, after, tick)
    } else {
        after == before
    }
}

/// The heat of a cell of the rectangle is a place of the palette.
pub proof fn lemma_heat_in_palette(cells: Map<(u16, u16), Look>, area: Area, tick: u64, x: int, y: int)
    requires
        area.fits(),
        area.contains(x, y),
    ensures
        0 <= heat(cells, area, tick, x, y) < 36,
    decreases area.y + area.height - y,
{
    let rand = mixed(tick, x as u16, y as u16);
    assert(rand & 1 <= 1) by (bit_vector);
    if y < area.y + area.height - 1 {
        let column = sample_column(area, x, rand);
        lemma_heat_in_palette(cells, area, tick, column, y + 1);
        let current = cells[(x as u16, y as u16)].fg;
        lemma_heat_of_in_palette(current);
    }
}

/// The heat of any colour is a place of the palette.
pub proof fn lemma_heat_of_in_palette(color: Paint)
    ensures
        0 <= heat_of(color) < 36,
{
    lemma_position_in_palette(color, 0);
}

/// A place found in the palette lies in it.
proof fn lemma_position_in_palette(color: Paint, from: int)
    requires
        0 <= from,
    ensures
        position_from(color, from) matches Some(i) ==> from <= i < 36,
    decreases 36 - from,
{
    if from < 36 && paint_of(FIRE_PALETTE[from]) != color {
        lemma_position_in_palette(color, from + 1);
    }
}

/// Whether the fire is drawn over the rows from `row` down, and over the
/// first cells of the row above up to column `column`, with everything else
/// as in `before`.
spec fn drawn_down_to(before: Buffer, now: Buffer, tick: u64, row: int, column: int) -> bool {
    let area = grid_area(before);
    &&& grid_area(now) == area
    &&& grid_len(now) == grid_len(before)
    &&& forall|x: u16, y: u16|
        area.contains(x as int, y as int) && (y >= row || (y == row - 1 && x < column))
            ==> #[trigger] grid_cells(now)[(x, y)] == flame(
            grid_cells(before),
            area,
            tick,
            x as int,
            y as int,
        )
    &&& forall|x: u16, y: u16|
        !(area.contains(x as int, y as int) && (y >= row || (y == row - 1 && x < column)))
            ==> #[trigger] grid_cells(now)[(x, y)] == grid_cells(before)[(x, y)]
}

/// Draws the fire over every cell of a grid that has cells: the bottom row
/// is lit first, then each row takes its heat from the row below it, from
/// the bottom up.
pub fn paint_fire(grid: &mut Buffer, tick: u64)
    requires
        grid_ready(*old(grid)),
        grid_area(*old(grid)).width > 0,
        grid_area(*old(grid)).height > 0,
    ensures
        fire_drawn(*old(grid), *final(grid), tick),
        grid_ready(*final(grid)),
{
    let area = area_of(grid);
    let left: u16 = area.x;
    let right: u16 = area.x + area.width;
    let top: u16 = area.y;
    let bottom: u16 = area.y + area.height;
    let ghost before = *grid;
    let mut x: u16 = left;
    while x < right
        invariant
            area == grid_area(before),
            grid_ready(before),
            area.height > 0,
            left == area.x,
            right == area.x + area.width,
            bottom == area.y + area.height,
            left <= x <= right,
            drawn_down_to(before, *grid, tick, bottom as int, x as int),
        decreases right - x,
    {
        let rand: u16 = pseudo_rand(tick, x, bottom - 1);
        let jitter: usize = (rand & 1) as usize;
        assert(rand & 1 <= 1) by (bit_vector);
        let seed_index: usize = FIRE_SOURCE - jitter;
        put(grid, x, bottom - 1, FIRE_GLYPH, FIRE_PALETTE[seed_index]);
        x += 1;
    }
    let mut y: u16 = bottom - 1;
    while y > top
        invariant
            area == grid_area(before),
            grid_ready(before),
            left == area.x,
            right == area.x + area.width,
            top == area.y,
            bottom == area.y + area.height,
            area.width > 0,
            top <= y < bottom,
            drawn_down_to(before, *grid, tick, y as int, left as int),
        decreases y - top,
    {
        let mut x: u16 = left;
        while x < right
            invariant
                area == grid_area(before),
                grid_ready(before),
                left == area.x,
                right == area.x + area.width,
                top == area.y,
                bottom == area.y + area.height,
                area.width > 0,
                top < y < bottom,
                left <= x <= right,
                drawn_down_to(before, *grid, tick, y as int, x as int),
            decreases right - x,
        {
            let row: u16 = y - 1;
            let rand: u16 = pseudo_rand(tick, x, row);
            let shifted: i32 = x as i32 + (rand % 5) as i32 - 2;
            let sample_x: u16 = if shifted < left as i32 {
                left
            } else if shifted > (right - 1) as i32 {
                right - 1
            } else {
                shifted as u16
            };
            let below = fg_at(grid, sample_x, y);
            let below_index: usize = match palette_index(below) {
                Some(i) => i,
                None => 0,
            };
            proof {
                let cells = grid_cells(before);
                lemma_heat_in_palette(cells, area, tick, sample_x as int, y as int);
                lemma_palette_places(heat(cells, area, tick, sample_x as int, y as int));
            }
            let cool_step: usize = match rand % 5 {
                0 => 2,
                1 => 1,
                _ => 0,
            };
            let cooled: usize = below_index.saturating_sub(cool_step);
            let target_index: usize = if rand & 4 == 0 {
                cooled
            } else {
                (below_index * 2 + cooled) / 3
            };
            let current = fg_at(grid, x, row);
            let current_index: usize = match palette_index(current) {
                Some(i) => i,
                None => 0,
            };
            let next_index: usize = if target_index < current_index {
                current_index.saturating_sub(1)
            } else {
                target_index
            };
            put(grid, x, row, FIRE_GLYPH, FIRE_PALETTE[next_index]);
            x += 1;
        }
        y -= 1;
    }
}

impl AppState {
    /// Draws the fire of `tick` over the grid. A grid without cells, or one
    /// that does not store a cell for each position of its rectangle, is
    /// left as it is.
    pub fn draw_background(grid: &mut Buffer, tick: u64)
        ensures
            background_drawn(*old(grid), *final(grid), tick),
    {
        let area = area_of(grid);
        if area.width == 0 || area.height == 0 || !is_ready(grid) {
            return;
        }
        paint_fire(grid, tick);
    }
}

} // verus!
