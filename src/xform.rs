//! Mapping between grid cells and the display surface.
//!
//! On the surface each grid cell is a block 3 characters wide and 2 tall.
//! A border column leads the grid and a separator column follows every
//! cell, so cells start every 4 columns; the second row of a cell carries
//! the horizontal border, so cells start every 2 rows. The grid itself may
//! sit anywhere on the surface: `grid_left` and `grid_top` place it.
use vstd::prelude::*;
use crate::rect::Rect;

verus! {

/// Display columns taken by one cell together with its separator.
pub const CELL_STRIDE_X: i32 = 4;

/// Display rows taken by one cell.
pub const CELL_STRIDE_Y: i32 = 2;

/// Width of a cell's block on the display.
pub const CELL_WIDTH: i32 = 3;

/// Height of a cell's block on the display.
pub const CELL_HEIGHT: i32 = 2;

/// The display block of grid cell `(x, y)`.
pub open spec fn spec_grid_to_window(x: int, y: int, grid_left: int, grid_top: int) -> (int, int) {
    (grid_left + 1 + 4 * x, grid_top + 1 + 2 * y)
}

/// The grid cell under display point `(x, y)`.
pub open spec fn spec_window_to_grid(x: int, y: int, grid_left: int, grid_top: int) -> (int, int) {
    ((x - grid_left - 1) / 4, (y - grid_top - 1) / 2)
}

/// The block of display characters that shows grid cell `(x, y)`.
pub fn game_grid_to_window(x: i32, y: i32, grid_left: i32, grid_top: i32) -> (r: Rect)
    requires
        i32::MIN <= spec_grid_to_window(x as int, y as int, grid_left as int, grid_top as int).0 <= i32::MAX,
        i32::MIN <= spec_grid_to_window(x as int, y as int, grid_left as int, grid_top as int).1 <= i32::MAX,
    ensures
        r.left == spec_grid_to_window(x as int, y as int, grid_left as int, grid_top as int).0,
        r.top == spec_grid_to_window(x as int, y as int, grid_left as int, grid_top as int).1,
        r.width == CELL_WIDTH,
        r.height == CELL_HEIGHT,
{
    let window_left = (grid_left as i64 + 1 + CELL_STRIDE_X as i64 * x as i64) as i32;
    let window_top = (grid_top as i64 + 1 + CELL_STRIDE_Y as i64 * y as i64) as i32;
    Rect { left: window_left, top: window_top, width: CELL_WIDTH, height: CELL_HEIGHT }
}

/// The grid cell that display point `(x, y)` falls in. The point must not
/// lie above or to the left of the grid's first cell.
pub fn window_to_game_grid(x: i32, y: i32, grid_left: i32, grid_top: i32) -> (r: (i32, i32))
    requires
        x - grid_left - 1 >= 0,
        y - grid_top - 1 >= 0,
    ensures
        r.0 == spec_window_to_grid(x as int, y as int, grid_left as int, grid_top as int).0,
        r.1 == spec_window_to_grid(x as int, y as int, grid_left as int, grid_top as int).1,
{
    let rel_x: i64 = x as i64 - grid_left as i64 - 1;
    let rel_y: i64 = y as i64 - grid_top as i64 - 1;
    ((rel_x / CELL_STRIDE_X as i64) as i32, (rel_y / CELL_STRIDE_Y as i64) as i32)
}

/// Every display point inside the block of cell `(x, y)` maps back to
/// `(x, y)`, wherever the grid is placed.
pub proof fn lemma_grid_window_round_trip(
    x: int,
    y: int,
    grid_left: int,
    grid_top: int,
    px: int,
    py: int,
)
    requires
        x >= 0,
        y >= 0,
        spec_grid_to_window(x, y, grid_left, grid_top).0 <= px
            < spec_grid_to_window(x, y, grid_left, grid_top).0 + CELL_WIDTH,
        spec_grid_to_window(x, y, grid_left, grid_top).1 <= py
            < spec_grid_to_window(x, y, grid_left, grid_top).1 + CELL_HEIGHT,
    ensures
        spec_window_to_grid(px, py, grid_left, grid_top) == (x, y),
{
    let kx = px - (grid_left + 1 + 4 * x);
    let ky = py - (grid_top + 1 + 2 * y);
    assert((4 * x + kx) / 4 == x) by (nonlinear_arith)
        requires
            0 <= kx < 4,
    ;
    assert((2 * y + ky) / 2 == y) by (nonlinear_arith)
        requires
            0 <= ky < 2,
    ;
    assert(px - grid_left - 1 == 4 * x + kx);
    assert(py - grid_top - 1 == 2 * y + ky);
}

} // verus!
