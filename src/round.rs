//! One round of play: the grid of one level, its countdown, and the rules
//! that turn clicks and the passing of time into a win or a loss.
//!
//! The host calls `tick` once per frame with the clock reading and the
//! latest pointer sample, then draws what the query methods report.
use vstd::prelude::*;
use crate::difficulty::{
    board_growth,
    board_time_secs,
    get_board_time_from_level,
    get_grid_size_from_level,
    get_max_revealed_cells_from_level,
    max_revealed_cells,
    START_BOARD_HEIGHT,
    START_BOARD_WIDTH,
};
use crate::grid::{
    cell_index,
    lemma_after_evict_wf,
    lemma_evict_keeps_items,
    spec_generated_item,
    CellKind,
    GameGrid,
    GridCell,
    GridItem,
    GridModel,
    HintDir,
    TrapType,
};
use crate::rect::Rect;
use crate::timer::Timer;
use crate::xform::{game_grid_to_window, spec_grid_to_window, spec_window_to_grid, window_to_game_grid};

verus! {

/// Milliseconds that the end-of-round message stays up.
pub const BOARD_FINISH_MSG_TIME_MS: u64 = 5000;

/// Milliseconds that a confusion trap lasts.
pub const CONFUSION_TIME_MS: u64 = 3000;

/// How a round ended.
#[derive(Debug, Clone, Copy, PartialEq, Eq, Structural)]
pub enum GameResult {
    Win,
    Lose,
}

/// A finished round: its result, the timer of the message that announces
/// it, and the round clock frozen at the moment it ended.
#[derive(Debug, Clone, Copy, PartialEq, Eq, Structural)]
pub struct GameOverState {
    pub result: GameResult,
    pub msg_timer: Timer,
    pub frozen_game_time: u64,
}

/// A pointer sample: where the pointer is on the display surface, and
/// whether it was clicked since the last sample.
#[derive(Debug, Clone, Copy, PartialEq, Eq, Structural)]
pub struct MouseState {
    pub click: bool,
    pub x: i32,
    pub y: i32,
}

/// The grid cell under display point `(px, py)` for a grid placed at
/// `(grid_left, grid_top)`; `None` above or to the left of the first cell.
pub open spec fn spec_pointer_cell(px: int, py: int, grid_left: int, grid_top: int) -> Option<
    (int, int),
> {
    if px - grid_left - 1 >= 0 && py - grid_top - 1 >= 0 {
        Some(spec_window_to_grid(px, py, grid_left, grid_top))
    } else {
        None
    }
}

/// The grid cell under display point `(px, py)`, as far as the point lies
/// right of and below the grid's leading borders. The cell may still lie
/// past the grid's last column or row.
pub fn pointer_cell(px: i32, py: i32, grid_left: i32, grid_top: i32) -> (r: Option<(i32, i32)>)
    ensures
        r matches Some(c) ==> spec_pointer_cell(px as int, py as int, grid_left as int, grid_top as int)
            == Some((c.0 as int, c.1 as int)),
        r is None ==> spec_pointer_cell(px as int, py as int, grid_left as int, grid_top as int) is None,
{
    if (px as i64) - (grid_left as i64) - 1 >= 0 && (py as i64) - (grid_top as i64) - 1 >= 0 {
        Some(window_to_game_grid(px, py, grid_left, grid_top))
    } else {
        None
    }
}

/// `v / 2` rounded toward zero.
pub open spec fn half_toward_zero(v: int) -> int {
    if v >= 0 {
        v / 2
    } else {
        -((-v) / 2)
    }
}

/// Where a `width` by `height` grid goes on a display whose last column
/// and row are `max_x` and `max_y`: centred, with the rectangle's size set
/// to the far corner of the grid's drawing as seen from its own origin.
pub fn centered_grid_rect(width: i32, height: i32, max_x: i32, max_y: i32) -> (r: Rect)
    requires
        0 <= width,
        0 <= height,
        4 * width + 3 <= i32::MAX,
        2 * height + 2 <= i32::MAX,
        0 <= max_x,
        0 <= max_y,
    ensures
        r.width == 4 * width + 3,
        r.height == 2 * height + 2,
        r.left == half_toward_zero(max_x - (4 * width + 3)),
        r.top == half_toward_zero(max_y - (2 * height + 2)),
{
    let grid_bounds = game_grid_to_window(width, height, 0, 0);
    let right = grid_bounds.right();
    let bottom = grid_bounds.bottom();
    Rect {
        left: ((max_x as i64 - right as i64) / 2) as i32,
        top: ((max_y as i64 - bottom as i64) / 2) as i32,
        width: right,
        height: bottom,
    }
}

/// The direction that a hint shows: while confusion is active, it flips to
/// its opposite in every other phase of the flicker.
pub open spec fn spec_displayed_direction(d: HintDir, confusion_active: bool, phase: bool) -> HintDir {
    if confusion_active && phase {
        d.spec_flip()
    } else {
        d
    }
}

pub fn displayed_direction(d: HintDir, confusion_active: bool, phase: bool) -> (r: HintDir)
    ensures
        r == spec_displayed_direction(d, confusion_active, phase),
{
    if confusion_active && phase {
        d.flip()
    } else {
        d
    }
}

/// The flicker phase of a confusion timer with `time_left` milliseconds to
/// go: on for the first half of every second.
pub open spec fn spec_flicker_phase(time_left: int) -> bool {
    time_left % 1000 < 500
}

/// Whether confusion shows flipped hints with `time_left_ms` left on it.
pub fn flip_every_half_second(time_left_ms: u64) -> (r: bool)
    ensures
        r == spec_flicker_phase(time_left_ms as int),
{
    time_left_ms % 1000 < 500
}

/// The abstract state of a `Round`.
pub struct RoundModel {
    pub grid: GridModel,
    pub game_timer: Timer,
    /// `None` while the round is being played.
    pub game_over: Option<GameOverState>,
    /// The running confusion effect, if any.
    pub confusion: Option<Timer>,
    pub level: nat,
    pub grid_left: int,
    pub grid_top: int,
}

impl RoundModel {
    pub open spec fn wf(self) -> bool {
        &&& self.grid.wf()
        &&& self.grid.records.len() <= self.grid.capacity + 1
        &&& spec_grid_to_window(self.grid.width, self.grid.height, self.grid_left, self.grid_top).0
            <= i32::MAX
        &&& spec_grid_to_window(self.grid.width, self.grid.height, self.grid_left, self.grid_top).1
            <= i32::MAX
    }

    /// The cell that the pointer sample clicks this tick, if any.
    pub open spec fn clicked_cell(self, mouse: MouseState) -> Option<(int, int)> {
        if mouse.click {
            spec_pointer_cell(mouse.x as int, mouse.y as int, self.grid_left, self.grid_top)
        } else {
            None
        }
    }

    /// How the round ended, or `None` while it is being played.
    pub open spec fn result(self) -> Option<GameResult> {
        match self.game_over {
            Some(g) => Some(g.result),
            None => None,
        }
    }

    /// Whether the pointer sample clicks the solution cell.
    pub open spec fn clicks_solution(self, mouse: MouseState) -> bool {
        match self.clicked_cell(mouse) {
            Some(c) => self.grid.item_at(c.0, c.1) == Some(GridItem::Solution),
            None => false,
        }
    }

    /// Whether the round was lost; a lost round shows every cell as it is.
    pub open spec fn is_lost(self) -> bool {
        self.result() == Some(GameResult::Lose)
    }

    /// The flicker phase of the running confusion effect at `now`, or
    /// `None` when there is none.
    pub open spec fn confusion_state(self, now: int) -> Option<bool> {
        match self.confusion {
            Some(t) => Some(spec_flicker_phase(t.spec_time_left(now))),
            None => None,
        }
    }

    /// What cell `(x, y)` shows at `now`: `None` outside the grid or while
    /// the cell is hidden. A cell is shown while revealed, and every cell is
    /// shown once the round is lost. Confusion flips the hints it shows,
    /// except in a lost round.
    pub open spec fn shown_item(self, x: int, y: int, now: int) -> Option<GridItem> {
        if !self.grid.in_bounds(x, y) || !(self.grid.cell_at(x, y).revealed || self.is_lost()) {
            None
        } else {
            match self.grid.cell_at(x, y).item {
                GridItem::Hint(d) => Some(
                    GridItem::Hint(
                        spec_displayed_direction(
                            d,
                            self.confusion is Some && !self.is_lost(),
                            self.confusion_state(now) == Some(true),
                        ),
                    ),
                ),
                item => Some(item),
            }
        }
    }

    /// The round clock to show at `now`: frozen once the round is over.
    pub open spec fn game_time_remaining(self, now: int) -> int {
        match self.game_over {
            Some(g) => g.frozen_game_time as int,
            None => self.game_timer.spec_time_left(now),
        }
    }

    /// One tick of a round that is being played, before an expired
    /// confusion effect is cleared: the reveal window takes its step; then
    /// the round is lost if its clock has run out, or else a click reveals
    /// a cell, which wins the round if it holds the solution and starts (or
    /// restarts) confusion if it holds a trap.
    pub open spec fn after_play(self, now: int, mouse: MouseState) -> RoundModel {
        let grid = self.grid.after_evict(now);
        if self.game_timer.spec_finished(now) {
            RoundModel {
                grid,
                game_over: Some(
                    GameOverState {
                        result: GameResult::Lose,
                        msg_timer: Timer { start_ms: now as u64, duration_ms: BOARD_FINISH_MSG_TIME_MS },
                        frozen_game_time: self.game_timer.spec_time_left(now) as u64,
                    },
                ),
                ..self
            }
        } else {
            match self.clicked_cell(mouse) {
                None => RoundModel { grid, ..self },
                Some(c) => {
                    let revealed = grid.after_reveal(c.0, c.1, now);
                    match grid.item_at(c.0, c.1) {
                        Some(GridItem::Solution) => RoundModel {
                            grid: revealed,
                            game_over: Some(
                                GameOverState {
                                    result: GameResult::Win,
                                    msg_timer: Timer {
                                        start_ms: now as u64,
                                        duration_ms: BOARD_FINISH_MSG_TIME_MS,
                                    },
                                    frozen_game_time: self.game_timer.spec_time_left(now) as u64,
                                },
                            ),
                            ..self
                        },
                        Some(GridItem::Trap(_)) => RoundModel {
                            grid: revealed,
                            confusion: Some(
                                Timer { start_ms: now as u64, duration_ms: CONFUSION_TIME_MS },
                            ),
                            ..self
                        },
                        _ => RoundModel { grid: revealed, ..self },
                    }
                },
            }
        }
    }

    /// The state after one tick at `now` with pointer sample `mouse`. A
    /// finished round changes no more, except that an expired confusion
    /// effect is cleared in every tick.
    pub open spec fn after_tick(self, now: int, mouse: MouseState) -> RoundModel {
        let stepped = if self.game_over is None {
            self.after_play(now, mouse)
        } else {
            self
        };
        RoundModel {
            confusion: match stepped.confusion {
                Some(t) => if t.spec_finished(now) {
                    None
                } else {
                    Some(t)
                },
                None => None,
            },
            ..stepped
        }
    }
}

/// How a round ends. A finished round stays as it is: its grid and result
/// no longer change. While the round is being played, a tick ends it in a
/// win exactly when the clock has not run out and a click reveals the
/// solution, and in a loss exactly when the clock has run out, so never in
/// both.
pub proof fn lemma_round_outcome(r: RoundModel, now: int, mouse: MouseState)
    requires
        r.wf(),
    ensures
        r.game_over is Some ==> r.after_tick(now, mouse).game_over == r.game_over
            && r.after_tick(now, mouse).grid == r.grid,
        r.game_over is None ==> (r.after_tick(now, mouse).result() == Some(GameResult::Win) <==> (
        !r.game_timer.spec_finished(now) && r.clicks_solution(mouse))),
        r.game_over is None ==> (r.after_tick(now, mouse).result() == Some(GameResult::Lose)
            <==> r.game_timer.spec_finished(now)),
{
    if r.game_over is None && !r.game_timer.spec_finished(now) {
        if let Some(c) = r.clicked_cell(mouse) {
            lemma_evict_keeps_items(r.grid, now, c.0, c.1);
        }
    }
}

/// Revealing a confusion trap leaves a round in play and starts confusion
/// afresh, for its full length from the moment of the click.
pub proof fn lemma_trap_starts_confusion(r: RoundModel, now: int, mouse: MouseState)
    requires
        r.wf(),
        r.game_over is None,
        !r.game_timer.spec_finished(now),
        0 <= now <= u64::MAX,
        r.clicked_cell(mouse) matches Some(c) && r.grid.item_at(c.0, c.1) == Some(
            GridItem::Trap(TrapType::Confusion),
        ),
    ensures
        r.after_tick(now, mouse).game_over is None,
        r.after_tick(now, mouse).confusion == Some(
            Timer { start_ms: now as u64, duration_ms: CONFUSION_TIME_MS },
        ),
{
    let c = r.clicked_cell(mouse)->Some_0;
    lemma_evict_keeps_items(r.grid, now, c.0, c.1);
}

/// One round of play.
pub struct Round {
    grid: GameGrid,
    game_timer: Timer,
    game_over_state: Option<GameOverState>,
    confusion_timer: Option<Timer>,
    level: usize,
    grid_left: i32,
    grid_top: i32,
}

impl View for Round {
    type V = RoundModel;

    closed spec fn view(&self) -> RoundModel {
        RoundModel {
            grid: self.grid@,
            game_timer: self.game_timer,
            game_over: self.game_over_state,
            confusion: self.confusion_timer,
            level: self.level as nat,
            grid_left: self.grid_left as int,
            grid_top: self.grid_top as int,
        }
    }
}

impl Round {
    pub open spec fn wf(&self) -> bool {
        self@.wf()
    }

    /// Starts playing `grid` as level `level`, with the grid drawn at
    /// `(grid_left, grid_top)` and the round clock started at `now_ms`.
    pub fn new(level: usize, grid: GameGrid, grid_left: i32, grid_top: i32, now_ms: u64) -> (r: Round)
        requires
            grid.wf(),
            grid@.records.len() <= grid@.capacity + 1,
            spec_grid_to_window(grid@.width, grid@.height, grid_left as int, grid_top as int).0
                <= i32::MAX,
            spec_grid_to_window(grid@.width, grid@.height, grid_left as int, grid_top as int).1
                <= i32::MAX,
        ensures
            r.wf(),
            r@.grid == grid@,
            r@.level == level,
            r@.grid_left == grid_left,
            r@.grid_top == grid_top,
            r@.game_timer == (Timer {
                start_ms: now_ms,
                duration_ms: (board_time_secs(level as int) * 1000) as u64,
            }),
            r@.game_over is None,
            r@.confusion is None,
    {
        let secs = get_board_time_from_level(level);
        Round {
            grid,
            game_timer: Timer::new(secs * 1000, now_ms),
            game_over_state: None,
            confusion_timer: None,
            level,
            grid_left,
            grid_top,
        }
    }

    /// Starts level `level`: a grid of the level's size and reveal
    /// capacity, with the solution at `solution` and the other cells of the
    /// categories in `kinds`, drawn at `(grid_left, grid_top)`.
    pub fn for_level(
        level: usize,
        solution: (i32, i32),
        kinds: &Vec<CellKind>,
        grid_left: i32,
        grid_top: i32,
        now_ms: u64,
    ) -> (r: Round)
        requires
            0 <= solution.0 < START_BOARD_WIDTH + board_growth(level as int),
            0 <= solution.1 < START_BOARD_HEIGHT + board_growth(level as int),
            kinds@.len() == (START_BOARD_WIDTH + board_growth(level as int)) * (START_BOARD_HEIGHT
                + board_growth(level as int)),
            grid_left + 1 + 4 * (START_BOARD_WIDTH + board_growth(level as int)) <= i32::MAX,
            grid_top + 1 + 2 * (START_BOARD_HEIGHT + board_growth(level as int)) <= i32::MAX,
        ensures
            r.wf(),
            r@.level == level,
            r@.grid_left == grid_left,
            r@.grid_top == grid_top,
            r@.game_timer == (Timer {
                start_ms: now_ms,
                duration_ms: (board_time_secs(level as int) * 1000) as u64,
            }),
            r@.game_over is None,
            r@.confusion is None,
            r@.grid.width == START_BOARD_WIDTH + board_growth(level as int),
            r@.grid.height == START_BOARD_HEIGHT + board_growth(level as int),
            r@.grid.capacity == max_revealed_cells(level as int),
            r@.grid.records.len() == 0,
            r@.grid.solution == (solution.0 as int, solution.1 as int),
            forall|x: int, y: int|
                #![trigger r@.grid.cell_at(x, y)]
                r@.grid.in_bounds(x, y) ==> r@.grid.cell_at(x, y) == (GridCell {
                    item: spec_generated_item(
                        x - solution.0,
                        y - solution.1,
                        kinds@[cell_index(r@.grid.width, x, y)],
                    ),
                    revealed: false,
                }),
    {
        let (width, height) = get_grid_size_from_level(level);
        let max_revealed = get_max_revealed_cells_from_level(level);
        assert(width * height <= 25 * 20) by (nonlinear_arith)
            requires
                0 < width <= 25,
                0 < height <= 20,
        ;
        let grid = GameGrid::new(width, height, max_revealed, solution, kinds);
        Round::new(level, grid, grid_left, grid_top, now_ms)
    }

    pub fn level(&self) -> (r: usize)
        ensures
            r == self@.level,
    {
        self.level
    }

    pub fn grid(&self) -> (r: &GameGrid)
        ensures
            r@ == self@.grid,
    {
        &self.grid
    }

    pub fn grid_left(&self) -> (r: i32)
        ensures
            r == self@.grid_left,
    {
        self.grid_left
    }

    pub fn grid_top(&self) -> (r: i32)
        ensures
            r == self@.grid_top,
    {
        self.grid_top
    }

    pub fn game_over_state(&self) -> (r: Option<GameOverState>)
        ensures
            r == self@.game_over,
    {
        self.game_over_state
    }

    /// The round's result once its end-of-round message has run out at
    /// `now_ms`; `None` while it is still being played or announced.
    pub fn result(&self, now_ms: u64) -> (r: Option<GameResult>)
        ensures
            r == match self@.game_over {
                Some(g) => if g.msg_timer.spec_finished(now_ms as int) {
                    Some(g.result)
                } else {
                    None
                },
                None => None::<GameResult>,
            },
    {
        match self.game_over_state {
            Some(g) => if g.msg_timer.finished(now_ms) {
                Some(g.result)
            } else {
                None
            },
            None => None,
        }
    }

    pub fn is_lost(&self) -> (r: bool)
        ensures
            r == self@.is_lost(),
    {
        match self.game_over_state {
            Some(g) => g.result == GameResult::Lose,
            None => false,
        }
    }

    /// The flicker phase of the running confusion effect, if any.
    pub fn confusion_state(&self, now_ms: u64) -> (r: Option<bool>)
        ensures
            r == self@.confusion_state(now_ms as int),
    {
        match self.confusion_timer {
            Some(t) => Some(flip_every_half_second(t.time_left(now_ms))),
            None => None,
        }
    }

    /// What cell `(x, y)` shows at `now_ms`; `None` outside the grid or
    /// while the cell is hidden.
    pub fn shown_item(&self, x: i32, y: i32, now_ms: u64) -> (r: Option<GridItem>)
        requires
            self.wf(),
        ensures
            r == self@.shown_item(x as int, y as int, now_ms as int),
    {
        let lost = self.is_lost();
        let cell = match self.grid.cell(x, y) {
            Some(cell) => cell,
            None => return None,
        };
        if !(cell.revealed || lost) {
            return None;
        }
        match cell.item {
            GridItem::Hint(d) => {
                let confusion = self.confusion_state(now_ms);
                let phase = match confusion {
                    Some(p) => p,
                    None => false,
                };
                Some(GridItem::Hint(displayed_direction(d, confusion.is_some() && !lost, phase)))
            },
            item => Some(item),
        }
    }

    /// The round clock to show, in milliseconds.
    pub fn game_time_remaining(&self, now_ms: u64) -> (r: u64)
        ensures
            r == self@.game_time_remaining(now_ms as int),
    {
        match self.game_over_state {
            Some(g) => g.frozen_game_time,
            None => self.game_timer.time_left(now_ms),
        }
    }

    /// Whole seconds left on the end-of-round message, rounded to the
    /// nearest; `None` while the round is being played.
    pub fn message_secs_left(&self, now_ms: u64) -> (r: Option<u64>)
        ensures
            r == match self@.game_over {
                Some(g) => Some(((g.msg_timer.spec_time_left(now_ms as int) + 500) / 1000) as u64),
                None => None::<u64>,
            },
    {
        match self.game_over_state {
            Some(g) => {
                let left = g.msg_timer.time_left(now_ms);
                let rounded: u64 = if left % 1000 >= 500 {
                    left / 1000 + 1
                } else {
                    left / 1000
                };
                Some(rounded)
            },
            None => None,
        }
    }

    /// The display block of the grid cell under the pointer, if the pointer
    /// is over one.
    pub fn hover_rect(&self, mouse: &MouseState) -> (r: Option<Rect>)
        requires
            self.wf(),
        ensures
            match spec_pointer_cell(mouse.x as int, mouse.y as int, self@.grid_left, self@.grid_top) {
                Some(c) => if self@.grid.in_bounds(c.0, c.1) {
                    r matches Some(rect) && rect.left == spec_grid_to_window(
                        c.0,
                        c.1,
                        self@.grid_left,
                        self@.grid_top,
                    ).0 && rect.top == spec_grid_to_window(c.0, c.1, self@.grid_left, self@.grid_top).1
                        && rect.width == 3 && rect.height == 2
                } else {
                    r is None
                },
                None => r is None,
            },
    {
        let cell = match pointer_cell(mouse.x, mouse.y, self.grid_left, self.grid_top) {
            Some(cell) => cell,
            None => return None,
        };
        if self.grid.cell(cell.0, cell.1).is_none() {
            return None;
        }
        Some(game_grid_to_window(cell.0, cell.1, self.grid_left, self.grid_top))
    }

    /// Advances the round by one frame at clock reading `now_ms`, with the
    /// latest pointer sample.
    pub fn tick(&mut self, now_ms: u64, mouse: &MouseState)
        requires
            old(self).wf(),
        ensures
            final(self).wf(),
            final(self)@ == old(self)@.after_tick(now_ms as int, *mouse),
    {
        let ghost o = self@;
        if self.game_over_state.is_none() {
            proof {
                lemma_after_evict_wf(o.grid, now_ms as int);
            }
            self.grid.reset_expired_cells(now_ms);
            if self.game_timer.finished(now_ms) {
                self.game_over_state = Some(
                    GameOverState {
                        result: GameResult::Lose,
                        msg_timer: Timer::new(BOARD_FINISH_MSG_TIME_MS, now_ms),
                        frozen_game_time: self.game_timer.time_left(now_ms),
                    },
                );
            } else if mouse.click {
                match pointer_cell(mouse.x, mouse.y, self.grid_left, self.grid_top) {
                    Some(cell) => {
                        match self.grid.try_reveal(cell.0, cell.1, now_ms) {
                            Some(GridItem::Solution) => {
                                self.game_over_state = Some(
                                    GameOverState {
                                        result: GameResult::Win,
                                        msg_timer: Timer::new(BOARD_FINISH_MSG_TIME_MS, now_ms),
                                        frozen_game_time: self.game_timer.time_left(now_ms),
                                    },
                                );
                            },
                            Some(GridItem::Trap(trap_type)) => match trap_type {
                                TrapType::Confusion => {
                                    self.confusion_timer = Some(Timer::new(CONFUSION_TIME_MS, now_ms));
                                },
                            },
                            _ => {},
                        }
                    },
                    None => {},
                }
            }
        }
        let expired = match &self.confusion_timer {
            Some(t) => t.finished(now_ms),
            None => false,
        };
        if expired {
            self.confusion_timer = None;
        }
    }
}

} // verus!
