//! How the game gets harder from one level to the next.
use vstd::prelude::*;

verus! {

/// Seconds on the round clock at level 1.
pub const MAX_TIME_SECS: u64 = 15;

/// The round clock never loses more than this many seconds.
pub const MAX_TIME_REDUCTION_SECS: u64 = 10;

/// The round clock starts shrinking only past this level.
pub const MIN_AFFECTED_LEVEL: usize = 6;

/// Grid width at the first levels.
pub const START_BOARD_WIDTH: i32 = 15;

/// Grid height at the first levels.
pub const START_BOARD_HEIGHT: i32 = 10;

/// Each grid dimension grows by at most this much.
pub const MAX_BOARD_GROWTH: i32 = 10;

/// Reveal-window capacity at the first levels.
pub const INITIAL_MAX_REVEALED_CELLS: usize = 6;

/// The reveal window never loses more than this many places.
pub const MAX_REVEALED_CELL_REDUCTION: usize = 5;

pub open spec fn min_int(a: int, b: int) -> int {
    if a <= b {
        a
    } else {
        b
    }
}

/// Round duration in seconds: 2 s less every 3 levels past level 6, never
/// more than 10 s less in all.
pub open spec fn board_time_secs(level: int) -> int {
    MAX_TIME_SECS - min_int(
        ((level - min_int(level, MIN_AFFECTED_LEVEL as int)) / 3) * 2,
        MAX_TIME_REDUCTION_SECS as int,
    )
}

/// Growth of each grid dimension: 1 every 3 levels, at most 10.
pub open spec fn board_growth(level: int) -> int {
    min_int(level / 3, MAX_BOARD_GROWTH as int)
}

/// Reveal-window capacity: 1 less every 5 levels, at least 1.
pub open spec fn max_revealed_cells(level: int) -> int {
    INITIAL_MAX_REVEALED_CELLS - min_int(level / 5, MAX_REVEALED_CELL_REDUCTION as int)
}

/// The round duration, in seconds, for `level`.
pub fn get_board_time_from_level(level: usize) -> (secs: u64)
    ensures
        secs == board_time_secs(level as int),
        5 <= secs <= 15,
{
    let adjusted_level: usize = level - if level < MIN_AFFECTED_LEVEL {
        level
    } else {
        MIN_AFFECTED_LEVEL
    };
    let difficulty_step: u64 = (adjusted_level / 3) as u64;
    let capped_time_reduction_in_secs: u64 = if difficulty_step >= MAX_TIME_REDUCTION_SECS / 2 {
        MAX_TIME_REDUCTION_SECS
    } else {
        difficulty_step * 2
    };
    MAX_TIME_SECS - capped_time_reduction_in_secs
}

/// The grid's `(width, height)` for `level`.
pub fn get_grid_size_from_level(level: usize) -> (size: (i32, i32))
    ensures
        size.0 == START_BOARD_WIDTH + board_growth(level as int),
        size.1 == START_BOARD_HEIGHT + board_growth(level as int),
        15 <= size.0 <= 25,
        10 <= size.1 <= 20,
{
    let difficulty_step: usize = level / 3;
    let capped_board_growth: i32 = if difficulty_step >= MAX_BOARD_GROWTH as usize {
        MAX_BOARD_GROWTH
    } else {
        difficulty_step as i32
    };
    (START_BOARD_WIDTH + capped_board_growth, START_BOARD_HEIGHT + capped_board_growth)
}

/// The reveal-window capacity for `level`.
pub fn get_max_revealed_cells_from_level(level: usize) -> (cap: usize)
    ensures
        cap == max_revealed_cells(level as int),
        1 <= cap <= 6,
{
    let difficulty_step: usize = level / 5;
    let capped_revealed_cell_reduction: usize = if difficulty_step < MAX_REVEALED_CELL_REDUCTION {
        difficulty_step
    } else {
        MAX_REVEALED_CELL_REDUCTION
    };
    INITIAL_MAX_REVEALED_CELLS - capped_revealed_cell_reduction
}

/// The three curves only ever make the game harder as the level rises, and
/// stay within their bounds at every level: the round lasts between 5 and
/// 15 seconds and never gets longer, the grid is between 15x10 and 25x20
/// cells and never shrinks, and the reveal window holds between 1 and 6
/// cells and never widens.
pub proof fn lemma_difficulty_monotone_and_bounded(lo: int, hi: int)
    requires
        1 <= lo <= hi,
    ensures
        board_time_secs(hi) <= board_time_secs(lo),
        5 <= board_time_secs(hi) <= 15,
        board_growth(lo) <= board_growth(hi),
        0 <= board_growth(hi) <= 10,
        max_revealed_cells(hi) <= max_revealed_cells(lo),
        1 <= max_revealed_cells(hi) <= 6,
{
    assert((lo - 6) / 3 <= (hi - 6) / 3) by (nonlinear_arith)
        requires
            lo <= hi,
    ;
    assert(lo / 3 <= hi / 3) by (nonlinear_arith)
        requires
            0 <= lo <= hi,
    ;
    assert(lo / 5 <= hi / 5) by (nonlinear_arith)
        requires
            0 <= lo <= hi,
    ;
}

} // verus!
