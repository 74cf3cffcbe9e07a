//! The grid of cells for one round: how it is generated, read and revealed,
//! and the window that hides revealed cells again.
use vstd::prelude::*;
use crate::timer::Timer;

verus! {

broadcast use vstd::std_specs::vecdeque::group_vec_dequeue_axioms;

/// A direction that a hint points in.
#[derive(Debug, Clone, Copy, PartialEq, Eq, Structural)]
pub enum HintDir {
    Left,
    Up,
    Right,
    Down,
}

impl HintDir {
    /// The opposite direction.
    pub open spec fn spec_flip(self) -> HintDir {
        match self {
            HintDir::Left => HintDir::Right,
            HintDir::Right => HintDir::Left,
            HintDir::Down => HintDir::Up,
            HintDir::Up => HintDir::Down,
        }
    }

    /// The one-cell move `(dx, dy)` that following this direction makes;
    /// `y` grows downward.
    pub open spec fn step(self) -> (int, int) {
        match self {
            HintDir::Left => (-1, 0),
            HintDir::Right => (1, 0),
            HintDir::Up => (0, -1),
            HintDir::Down => (0, 1),
        }
    }

    pub fn flip(&self) -> (r: Self)
        ensures
            r == self.spec_flip(),
    {
        match self {
            HintDir::Left => HintDir::Right,
            HintDir::Right => HintDir::Left,
            HintDir::Down => HintDir::Up,
            HintDir::Up => HintDir::Down,
        }
    }
}

/// What a trap does when revealed.
#[derive(Debug, Clone, Copy, PartialEq, Eq, Structural)]
pub enum TrapType {
    /// Hint directions flicker to their opposite for a while.
    Confusion,
}

/// What a cell holds.
#[derive(Debug, Clone, Copy, PartialEq, Eq, Structural)]
pub enum GridItem {
    Solution,
    Hint(HintDir),
    Trap(TrapType),
    Empty,
}

/// A cell: what it holds, and whether it is currently shown.
#[derive(Debug, Clone, Copy, PartialEq, Eq, Structural)]
pub struct GridCell {
    pub item: GridItem,
    pub revealed: bool,
}

/// The category drawn for a cell other than the solution.
#[derive(Debug, Clone, Copy, PartialEq, Eq, Structural)]
pub enum CellKind {
    Empty,
    Trap,
    Hint,
}

/// Number of equally likely slots that a cell's category is drawn from.
pub const CELL_KIND_SLOTS: usize = 10;

/// The category table: slot 0 is a trap, slots 1 and 2 are blanks, the other
/// seven are hints (10% traps, 20% blanks, 70% hints).
pub open spec fn spec_kind_for_slot(slot: int) -> CellKind {
    if slot == 0 {
        CellKind::Trap
    } else if slot <= 2 {
        CellKind::Empty
    } else {
        CellKind::Hint
    }
}

/// The category of slot `slot`, for a slot drawn uniformly below
/// `CELL_KIND_SLOTS`.
pub fn kind_for_slot(slot: usize) -> (k: CellKind)
    requires
        slot < CELL_KIND_SLOTS,
    ensures
        k == spec_kind_for_slot(slot as int),
{
    if slot == 0 {
        CellKind::Trap
    } else if slot <= 2 {
        CellKind::Empty
    } else {
        CellKind::Hint
    }
}

pub open spec fn abs(v: int) -> int {
    if v < 0 {
        -v
    } else {
        v
    }
}

/// The hint shown by a cell at displacement `(dx, dy)` from the solution.
/// The axis with the larger distance wins, the horizontal one on a tie;
/// the direction is the one that brings the cell closer along that axis.
pub open spec fn spec_hint_direction(dx: int, dy: int) -> HintDir {
    if abs(dx) >= abs(dy) {
        if dx > 0 {
            HintDir::Left
        } else {
            HintDir::Right
        }
    } else {
        if dy > 0 {
            HintDir::Up
        } else {
            HintDir::Down
        }
    }
}

/// The hint for displacement `(dx, dy)`, which must not be zero.
pub fn displacement_to_hint_direction(dx: i32, dy: i32) -> (d: HintDir)
    requires
        dx != 0 || dy != 0,
        dx > i32::MIN,
        dy > i32::MIN,
    ensures
        d == spec_hint_direction(dx as int, dy as int),
{
    let abs_dx: i32 = if dx < 0 {
        -dx
    } else {
        dx
    };
    let abs_dy: i32 = if dy < 0 {
        -dy
    } else {
        dy
    };
    if abs_dx >= abs_dy {
        if dx > 0 {
            HintDir::Left
        } else {
            HintDir::Right
        }
    } else {
        if dy > 0 {
            HintDir::Up
        } else {
            HintDir::Down
        }
    }
}

/// What the generator puts in a cell at displacement `(dx, dy)` from the
/// solution, given the category drawn for it.
pub open spec fn spec_generated_item(dx: int, dy: int, kind: CellKind) -> GridItem {
    if dx == 0 && dy == 0 {
        GridItem::Solution
    } else {
        match kind {
            CellKind::Empty => GridItem::Empty,
            CellKind::Trap => GridItem::Trap(TrapType::Confusion),
            CellKind::Hint => GridItem::Hint(spec_hint_direction(dx, dy)),
        }
    }
}

/// Following a hint moves a cell one step closer to the solution along the
/// axis that chose it, and not at all along the other: after `k` steps, for
/// any `k` up to the distance on that axis, the distance left is exactly
/// `k` less.
pub proof fn lemma_hint_direction_closes_in(dx: int, dy: int, k: int)
    requires
        dx != 0 || dy != 0,
        0 <= k <= if abs(dx) >= abs(dy) { abs(dx) } else { abs(dy) },
    ensures
        ({
            let s = spec_hint_direction(dx, dy).step();
            if abs(dx) >= abs(dy) {
                s.1 == 0 && abs(dx + k * s.0) == abs(dx) - k
            } else {
                s.0 == 0 && abs(dy + k * s.1) == abs(dy) - k
            }
        }),
{
}


/// Milliseconds that a revealed cell stays shown, unless pushed out sooner.
pub const REVEAL_TIME_MS: u64 = 4000;

/// One entry of the reveal window: the cell that was revealed, and the
/// timer that started when it was.
#[derive(Debug, Clone, Copy, PartialEq, Eq, Structural)]
pub struct CellTimer {
    pub x: i32,
    pub y: i32,
    pub timer: Timer,
}

/// The abstract state of a `GameGrid`.
pub struct GridModel {
    pub width: int,
    pub height: int,
    /// The cells, row after row.
    pub cells: Seq<GridCell>,
    /// The reveal window, oldest entry first.
    pub records: Seq<CellTimer>,
    /// How many entries the window keeps before pushing the oldest out.
    pub capacity: nat,
    /// Where the solution was placed.
    pub solution: (int, int),
}

/// Position of cell `(x, y)` in a row-major sequence of rows of `width`.
pub open spec fn cell_index(width: int, x: int, y: int) -> int {
    width * y + x
}

impl GridModel {
    pub open spec fn in_bounds(self, x: int, y: int) -> bool {
        0 <= x < self.width && 0 <= y < self.height
    }

    pub open spec fn cell_at(self, x: int, y: int) -> GridCell {
        self.cells[cell_index(self.width, x, y)]
    }

    /// The cells that are currently shown, by position.
    pub open spec fn revealed_cells(self) -> Set<(int, int)> {
        Set::new(|p: (int, int)| self.in_bounds(p.0, p.1) && self.cell_at(p.0, p.1).revealed)
    }

    /// The positions that the reveal window holds entries for.
    pub open spec fn record_positions(self) -> Set<(int, int)> {
        self.records.map_values(|r: CellTimer| (r.x as int, r.y as int)).to_set()
    }

    /// The cells that hold the solution, by position.
    pub open spec fn solution_cells(self) -> Set<(int, int)> {
        Set::new(
            |p: (int, int)| self.in_bounds(p.0, p.1) && self.cell_at(p.0, p.1).item == GridItem::Solution,
        )
    }

    /// What the cell at `(x, y)` holds, or `None` outside the grid.
    pub open spec fn item_at(self, x: int, y: int) -> Option<GridItem> {
        if self.in_bounds(x, y) {
            Some(self.cell_at(x, y).item)
        } else {
            None
        }
    }

    /// The state after revealing `(x, y)` at `now`: the cell is shown and a
    /// fresh entry joins the back of the window. Outside the grid nothing
    /// changes.
    pub open spec fn after_reveal(self, x: int, y: int, now: int) -> GridModel {
        if self.in_bounds(x, y) {
            GridModel {
                cells: self.cells.update(
                    cell_index(self.width, x, y),
                    GridCell { item: self.cell_at(x, y).item, revealed: true },
                ),
                records: self.records.push(
                    CellTimer {
                        x: x as i32,
                        y: y as i32,
                        timer: Timer { start_ms: now as u64, duration_ms: REVEAL_TIME_MS },
                    },
                ),
                ..self
            }
        } else {
            self
        }
    }

    /// Whether the oldest entry of the window leaves it at `now`: the
    /// window is over capacity, or that entry's timer has run out.
    pub open spec fn should_evict(self, now: int) -> bool {
        self.records.len() > 0 && (self.records.len() > self.capacity
            || self.records[0].timer.spec_finished(now))
    }

    /// The state after one step of the window at `now`: if the oldest entry
    /// leaves, its cell is hidden again.
    pub open spec fn after_evict(self, now: int) -> GridModel {
        if self.should_evict(now) {
            let (x, y) = (self.records[0].x as int, self.records[0].y as int);
            GridModel {
                cells: self.cells.update(
                    cell_index(self.width, x, y),
                    GridCell { item: self.cell_at(x, y).item, revealed: false },
                ),
                records: self.records.drop_first(),
                ..self
            }
        } else {
            self
        }
    }

    pub open spec fn wf(self) -> bool {
        &&& 0 < self.width
        &&& 0 < self.height
        &&& self.width * self.height <= i32::MAX
        &&& self.cells.len() == self.width * self.height
        &&& self.in_bounds(self.solution.0, self.solution.1)
        &&& forall|x: int, y: int|
            #![trigger self.cell_at(x, y)]
            self.in_bounds(x, y) ==> ((self.cell_at(x, y).item == GridItem::Solution) <==> (x
                == self.solution.0 && y == self.solution.1))
        &&& forall|x: int, y: int|
            #![trigger self.cell_at(x, y)]
            self.in_bounds(x, y) && self.cell_at(x, y).item is Hint ==> self.cell_at(x, y).item
                == GridItem::Hint(
                spec_hint_direction(x - self.solution.0, y - self.solution.1),
            )
        &&& forall|j: int|
            #![trigger self.records[j]]
            0 <= j < self.records.len() ==> self.in_bounds(
                self.records[j].x as int,
                self.records[j].y as int,
            )
        &&& forall|x: int, y: int|
            #![trigger self.cell_at(x, y)]
            self.in_bounds(x, y) && self.cell_at(x, y).revealed ==> self.record_positions().contains(
                (x, y),
            )
    }
}

/// A well-formed grid holds exactly one solution cell.
pub proof fn lemma_exactly_one_solution(g: GridModel)
    requires
        g.wf(),
    ensures
        g.solution_cells() == set![g.solution],
        g.solution_cells().len() == 1,
{
    assert(g.solution_cells() =~= set![g.solution]) by {
        let _ = g.cell_at(g.solution.0, g.solution.1);
        assert forall|p: (int, int)| g.solution_cells().contains(p) implies p == g.solution by {
            let _ = g.cell_at(p.0, p.1);
        }
    }
}

/// The reveal window holds an entry for every cell that is shown, so no more
/// cells are shown than it has entries.
pub proof fn lemma_revealed_within_records(g: GridModel)
    requires
        g.wf(),
    ensures
        g.revealed_cells().finite(),
        g.revealed_cells().len() <= g.records.len(),
{
    let positions = g.records.map_values(|r: CellTimer| (r.x as int, r.y as int));
    assert(g.revealed_cells().subset_of(g.record_positions())) by {
        assert forall|p: (int, int)| g.revealed_cells().contains(p) implies g.record_positions().contains(p) by {
            let _ = g.cell_at(p.0, p.1);
        }
    }
    positions.lemma_cardinality_of_set();
    vstd::set_lib::lemma_len_subset(g.revealed_cells(), g.record_positions());
}

/// In a well-formed grid every hint points toward the solution: from a hint
/// cell, `k` steps in its direction, for any `k` up to the cell's distance
/// from the solution on the axis that chose the hint, bring that distance
/// down by exactly `k` and leave the other axis alone.
pub proof fn lemma_hints_lead_to_solution(g: GridModel, x: int, y: int, k: int)
    requires
        g.wf(),
        g.in_bounds(x, y),
        g.cell_at(x, y).item is Hint,
        0 <= k <= if abs(x - g.solution.0) >= abs(y - g.solution.1) {
            abs(x - g.solution.0)
        } else {
            abs(y - g.solution.1)
        },
    ensures
        ({
            let (dx, dy) = (x - g.solution.0, y - g.solution.1);
            let s = g.cell_at(x, y).item->Hint_0.step();
            &&& dx != 0 || dy != 0
            &&& if abs(dx) >= abs(dy) {
                s.1 == 0 && abs(dx + k * s.0) == abs(dx) - k
            } else {
                s.0 == 0 && abs(dy + k * s.1) == abs(dy) - k
            }
        }),
{
    lemma_hint_direction_closes_in(x - g.solution.0, y - g.solution.1, k);
}

/// A step of the reveal window changes only what is shown, never what a
/// cell holds.
pub proof fn lemma_evict_keeps_items(g: GridModel, now: int, x: int, y: int)
    requires
        g.wf(),
    ensures
        g.after_evict(now).item_at(x, y) == g.item_at(x, y),
{
    if g.should_evict(now) && g.in_bounds(x, y) {
        let _ = g.records[0];
        lemma_cell_index_in_range(g.width, g.height, x, y);
        lemma_cell_index_in_range(g.width, g.height, g.records[0].x as int, g.records[0].y as int);
    }
}

/// Revealing a cell keeps a grid well-formed.
pub proof fn lemma_after_reveal_wf(g: GridModel, x: int, y: int, now: int)
    requires
        g.wf(),
        i32::MIN <= x <= i32::MAX,
        i32::MIN <= y <= i32::MAX,
        0 <= now <= u64::MAX,
    ensures
        g.after_reveal(x, y, now).wf(),
{
    if !g.in_bounds(x, y) {
        return;
    }
    let f = g.after_reveal(x, y, now);
    let new_pos = f.records.map_values(|r: CellTimer| (r.x as int, r.y as int));
    let old_pos = g.records.map_values(|r: CellTimer| (r.x as int, r.y as int));
    assert(new_pos[new_pos.len() - 1] == (x, y));
    assert forall|j: int| 0 <= j < old_pos.len() implies new_pos[j] == #[trigger] old_pos[j] by {
        assert(f.records[j] == g.records[j]);
    }
    lemma_cell_index_in_range(g.width, g.height, x, y);
    assert forall|a: int, b: int| #[trigger] f.in_bounds(a, b) implies f.cell_at(a, b) == (if a
        == x && b == y {
        GridCell { item: g.cell_at(a, b).item, revealed: true }
    } else {
        g.cell_at(a, b)
    }) by {
        lemma_cell_index_in_range(g.width, g.height, a, b);
        if cell_index(g.width, a, b) == cell_index(g.width, x, y) {
            lemma_cell_index_injective(g.width, a, b, x, y);
        }
    }
    assert forall|a: int, b: int|
        f.in_bounds(a, b) && #[trigger] f.cell_at(a, b).revealed implies f.record_positions().contains(
        (a, b),
    ) by {
        if a == x && b == y {
            assert(new_pos[new_pos.len() - 1] == (a, b));
        } else {
            let _ = g.cell_at(a, b);
            let j = choose|j: int| 0 <= j < old_pos.len() && old_pos[j] == (a, b);
            assert(new_pos[j] == (a, b));
        }
    }
    assert forall|j: int| 0 <= j < f.records.len() implies f.in_bounds(
        #[trigger] f.records[j].x as int,
        f.records[j].y as int,
    ) by {
        if j < g.records.len() {
            assert(f.records[j] == g.records[j]);
        }
    }
}

/// One step of the reveal window keeps a grid well-formed, and a window
/// that was at most one entry over capacity is back within it, with no more
/// cells shown than the capacity.
pub proof fn lemma_after_evict_wf(g: GridModel, now: int)
    requires
        g.wf(),
    ensures
        g.after_evict(now).wf(),
        g.records.len() <= g.capacity + 1 ==> g.after_evict(now).records.len() <= g.capacity,
        g.records.len() <= g.capacity + 1 ==> g.after_evict(now).revealed_cells().len()
            <= g.capacity,
{
    let f = g.after_evict(now);
    if g.should_evict(now) {
        let (ox, oy) = (g.records[0].x as int, g.records[0].y as int);
        let new_pos = f.records.map_values(|r: CellTimer| (r.x as int, r.y as int));
        let old_pos = g.records.map_values(|r: CellTimer| (r.x as int, r.y as int));
        assert forall|j: int| 0 < j < old_pos.len() implies new_pos[j - 1] == #[trigger] old_pos[j] by {
            assert(f.records[j - 1] == g.records[j]);
        }
        assert(old_pos[0] == (ox, oy));
        lemma_cell_index_in_range(g.width, g.height, ox, oy);
        assert forall|a: int, b: int| #[trigger] f.in_bounds(a, b) implies f.cell_at(a, b) == (if a
            == ox && b == oy {
            GridCell { item: g.cell_at(a, b).item, revealed: false }
        } else {
            g.cell_at(a, b)
        }) by {
            lemma_cell_index_in_range(g.width, g.height, a, b);
            if cell_index(g.width, a, b) == cell_index(g.width, ox, oy) {
                lemma_cell_index_injective(g.width, a, b, ox, oy);
            }
        }
        assert forall|a: int, b: int|
            f.in_bounds(a, b) && #[trigger] f.cell_at(a, b).revealed implies f.record_positions().contains(
            (a, b),
        ) by {
            let _ = g.cell_at(a, b);
            let j = choose|j: int| 0 <= j < old_pos.len() && old_pos[j] == (a, b);
            assert(j != 0);
            assert(new_pos[j - 1] == (a, b));
        }
        assert forall|j: int| 0 <= j < f.records.len() implies f.in_bounds(
            #[trigger] f.records[j].x as int,
            f.records[j].y as int,
        ) by {
            assert(f.records[j] == g.records[j + 1]);
        }
    }
    lemma_revealed_within_records(f);
}

/// Reveals interleaved with steps of the window, one reveal per step, never
/// leave more cells shown than the window's capacity: from a window within
/// capacity, a reveal followed by a step leaves it within capacity again.
pub proof fn lemma_window_within_capacity(g: GridModel, x: int, y: int, reveal_at: int, now: int)
    requires
        g.wf(),
        g.records.len() <= g.capacity,
        i32::MIN <= x <= i32::MAX,
        i32::MIN <= y <= i32::MAX,
        0 <= reveal_at <= u64::MAX,
    ensures
        g.after_reveal(x, y, reveal_at).after_evict(now).wf(),
        g.after_reveal(x, y, reveal_at).after_evict(now).records.len() <= g.capacity,
        g.after_reveal(x, y, reveal_at).after_evict(now).revealed_cells().len() <= g.capacity,
{
    lemma_after_reveal_wf(g, x, y, reveal_at);
    lemma_after_evict_wf(g.after_reveal(x, y, reveal_at), now);
}

/// Distinct cells of a grid sit at distinct positions of the sequence.
pub proof fn lemma_cell_index_injective(width: int, x1: int, y1: int, x2: int, y2: int)
    requires
        0 <= x1 < width,
        0 <= x2 < width,
        0 <= y1,
        0 <= y2,
        cell_index(width, x1, y1) == cell_index(width, x2, y2),
    ensures
        x1 == x2 && y1 == y2,
{
    if y1 < y2 {
        assert(width * y1 + width <= width * y2) by (nonlinear_arith)
            requires
                y1 < y2,
                0 < width,
        ;
    } else if y2 < y1 {
        assert(width * y2 + width <= width * y1) by (nonlinear_arith)
            requires
                y2 < y1,
                0 < width,
        ;
    }
}

/// Every cell of a `width` by `height` grid has its place in the sequence.
pub proof fn lemma_cell_index_in_range(width: int, height: int, x: int, y: int)
    requires
        0 <= x < width,
        0 <= y < height,
    ensures
        0 <= cell_index(width, x, y) < width * height,
{
    assert(0 <= width * y + x < width * height) by (nonlinear_arith)
        requires
            0 <= x < width,
            0 <= y < height,
    ;
}

/// The cells of one round, and the window of cells currently revealed.
pub struct GameGrid {
    cells: Vec<GridCell>,
    timers: std::collections::VecDeque<CellTimer>,
    max_revealed_cells: usize,
    width: i32,
    height: i32,
    solution: Ghost<(int, int)>,
}

impl View for GameGrid {
    type V = GridModel;

    closed spec fn view(&self) -> GridModel {
        GridModel {
            width: self.width as int,
            height: self.height as int,
            cells: self.cells@,
            records: self.timers@,
            capacity: self.max_revealed_cells as nat,
            solution: self.solution@,
        }
    }
}

impl GameGrid {
    pub open spec fn wf(&self) -> bool {
        self@.wf()
    }

    /// Builds a `width` by `height` grid with the solution at `solution`.
    /// Every other cell takes the category in `kinds` at its row-major
    /// position: a trap, a blank, or a hint toward the solution. No cell
    /// starts revealed, and the reveal window starts empty and keeps
    /// `max_revealed_cells` entries.
    pub fn new(
        width: i32,
        height: i32,
        max_revealed_cells: usize,
        solution: (i32, i32),
        kinds: &Vec<CellKind>,
    ) -> (g: GameGrid)
        requires
            0 < width,
            0 < height,
            width * height <= i32::MAX,
            0 <= solution.0 < width,
            0 <= solution.1 < height,
            kinds@.len() == width * height,
        ensures
            g.wf(),
            g@.width == width,
            g@.height == height,
            g@.capacity == max_revealed_cells,
            g@.records.len() == 0,
            g@.solution == (solution.0 as int, solution.1 as int),
            g@.solution_cells() == set![(solution.0 as int, solution.1 as int)],
            forall|x: int, y: int|
                #![trigger g@.cell_at(x, y)]
                g@.in_bounds(x, y) ==> g@.cell_at(x, y) == (GridCell {
                    item: spec_generated_item(
                        x - solution.0,
                        y - solution.1,
                        kinds@[cell_index(width as int, x, y)],
                    ),
                    revealed: false,
                }),
    {
        let num_cells: usize = (width * height) as usize;
        let mut cells: Vec<GridCell> = Vec::with_capacity(num_cells);
        let mut row: i32 = 0;
        while row < height
            invariant
                0 < width,
                0 < height,
                width * height <= i32::MAX,
                0 <= solution.0 < width,
                0 <= solution.1 < height,
                kinds@.len() == width * height,
                0 <= row <= height,
                cells@.len() == width * row,
                forall|x: int, y: int|
                    #![trigger cells@[cell_index(width as int, x, y)]]
                    0 <= x < width && 0 <= y < row ==> cells@[cell_index(width as int, x, y)] == (
                    GridCell {
                        item: spec_generated_item(
                            x - solution.0,
                            y - solution.1,
                            kinds@[cell_index(width as int, x, y)],
                        ),
                        revealed: false,
                    }),
            decreases height - row,
        {
            let mut col: i32 = 0;
            while col < width
                invariant
                    0 < width,
                    0 < height,
                    width * height <= i32::MAX,
                    0 <= solution.0 < width,
                    0 <= solution.1 < height,
                    kinds@.len() == width * height,
                    0 <= row < height,
                    0 <= col <= width,
                    cells@.len() == width * row + col,
                    forall|x: int, y: int|
                        #![trigger cells@[cell_index(width as int, x, y)]]
                        0 <= x < width && 0 <= y <= row && cell_index(width as int, x, y)
                            < cells@.len() ==> cells@[cell_index(width as int, x, y)] == (
                        GridCell {
                            item: spec_generated_item(
                                x - solution.0,
                                y - solution.1,
                                kinds@[cell_index(width as int, x, y)],
                            ),
                            revealed: false,
                        }),
                decreases width - col,
            {
                proof {
                    lemma_cell_index_in_range(width as int, height as int, col as int, row as int);
                }
                let x_displacement: i32 = col - solution.0;
                let y_displacement: i32 = row - solution.1;
                let index: usize = (width * row + col) as usize;
                let item = if x_displacement == 0 && y_displacement == 0 {
                    GridItem::Solution
                } else {
                    match kinds[index] {
                        CellKind::Empty => GridItem::Empty,
                        CellKind::Trap => GridItem::Trap(TrapType::Confusion),
                        CellKind::Hint => GridItem::Hint(
                            displacement_to_hint_direction(x_displacement, y_displacement),
                        ),
                    }
                };
                let ghost old_cells = cells@;
                cells.push(GridCell { item, revealed: false });
                proof {
                    assert forall|x: int, y: int|
                        0 <= x < width && 0 <= y <= row && cell_index(width as int, x, y)
                            < cells@.len() implies #[trigger] cells@[cell_index(width as int, x, y)]
                        == (GridCell {
                        item: spec_generated_item(
                            x - solution.0,
                            y - solution.1,
                            kinds@[cell_index(width as int, x, y)],
                        ),
                        revealed: false,
                    }) by {
                        if cell_index(width as int, x, y) == index {
                            lemma_cell_index_injective(width as int, x, y, col as int, row as int);
                        } else {
                            assert(cells@[cell_index(width as int, x, y)] == old_cells[cell_index(
                                width as int,
                                x,
                                y,
                            )]);
                        }
                    }
                }
                col = col + 1;
            }
            proof {
                assert(width * (row + 1) == width * row + width) by (nonlinear_arith);
                assert forall|x: int, y: int|
                    0 <= x < width && 0 <= y < row + 1 implies #[trigger] cells@[cell_index(
                    width as int,
                    x,
                    y,
                )] == (GridCell {
                    item: spec_generated_item(
                        x - solution.0,
                        y - solution.1,
                        kinds@[cell_index(width as int, x, y)],
                    ),
                    revealed: false,
                }) by {
                    lemma_cell_index_in_range(width as int, row as int + 1, x, y);
                }
            }
            row = row + 1;
        }
        let g = GameGrid {
            cells,
            timers: std::collections::VecDeque::new(),
            max_revealed_cells,
            width,
            height,
            solution: Ghost((solution.0 as int, solution.1 as int)),
        };
        proof {
            assert forall|x: int, y: int| #[trigger] g@.in_bounds(x, y) implies g@.cell_at(x, y)
                == (GridCell {
                item: spec_generated_item(
                    x - solution.0,
                    y - solution.1,
                    kinds@[cell_index(width as int, x, y)],
                ),
                revealed: false,
            }) by {
                assert(cells@[cell_index(width as int, x, y)] == g@.cell_at(x, y));
            }
            lemma_exactly_one_solution(g@);
        }
        g
    }

    pub fn width(&self) -> (r: i32)
        ensures
            r == self@.width,
    {
        self.width
    }

    pub fn height(&self) -> (r: i32)
        ensures
            r == self@.height,
    {
        self.height
    }

    /// The reveal window's capacity.
    pub fn max_revealed_cells(&self) -> (r: usize)
        ensures
            r == self@.capacity,
    {
        self.max_revealed_cells
    }

    /// Number of entries in the reveal window.
    pub fn revealed_count(&self) -> (r: usize)
        ensures
            r == self@.records.len(),
    {
        self.timers.len()
    }

    /// Where cell `(x, y)` sits in the cell sequence, or `None` outside the
    /// grid.
    fn cell_position(&self, x: i32, y: i32) -> (r: Option<usize>)
        requires
            self.wf(),
        ensures
            r matches Some(i) <==> self@.in_bounds(x as int, y as int),
            r matches Some(i) ==> i == cell_index(self@.width, x as int, y as int) && i
                < self@.cells.len(),
    {
        if x < 0 || x >= self.width || y < 0 || y >= self.height {
            return None;
        }
        proof {
            lemma_cell_index_in_range(self.width as int, self.height as int, x as int, y as int);
        }
        Some((self.width * y + x) as usize)
    }

    /// The cell at `(x, y)`, or `None` outside the grid.
    pub fn cell(&self, x: i32, y: i32) -> (r: Option<GridCell>)
        requires
            self.wf(),
        ensures
            r == if self@.in_bounds(x as int, y as int) {
                Some(self@.cell_at(x as int, y as int))
            } else {
                None::<GridCell>
            },
    {
        match self.cell_position(x, y) {
            Some(index) => Some(self.cells[index]),
            None => None,
        }
    }

    /// Reveals the cell at `(x, y)` and returns what it holds, or `None`
    /// outside the grid. Each reveal, a repeated one too, adds an entry with
    /// a fresh timer started at `now_ms` to the back of the reveal window.
    pub fn try_reveal(&mut self, x: i32, y: i32, now_ms: u64) -> (r: Option<GridItem>)
        requires
            old(self).wf(),
        ensures
            final(self).wf(),
            r == old(self)@.item_at(x as int, y as int),
            final(self)@ == old(self)@.after_reveal(x as int, y as int, now_ms as int),
    {
        let index = match self.cell_position(x, y) {
            Some(index) => index,
            None => return None,
        };
        let ghost o = self@;
        let item = self.cells[index].item;
        self.cells[index] = GridCell { item, revealed: true };
        self.timers.push_back(CellTimer { x, y, timer: Timer::new(REVEAL_TIME_MS, now_ms) });
        proof {
            assert(self@ =~= o.after_reveal(x as int, y as int, now_ms as int));
            lemma_after_reveal_wf(o, x as int, y as int, now_ms as int);
        }
        Some(item)
    }

    /// One step of the reveal window: when the window is over capacity, or
    /// its oldest entry's timer has run out at `now_ms`, that entry leaves the
    /// window and its cell is hidden again. At most one entry leaves per call.
    pub fn reset_expired_cells(&mut self, now_ms: u64)
        requires
            old(self).wf(),
        ensures
            final(self).wf(),
            final(self)@ == old(self)@.after_evict(now_ms as int),
            old(self)@.records.len() <= old(self)@.capacity + 1 ==> final(self)@.records.len()
                <= final(self)@.capacity,
            old(self)@.records.len() <= old(self)@.capacity + 1
                ==> final(self)@.revealed_cells().len() <= final(self)@.capacity,
    {
        let ghost o = self@;
        proof {
            lemma_after_evict_wf(o, now_ms as int);
        }
        if self.timers.len() == 0 {
            return;
        }
        if self.timers.len() > self.max_revealed_cells || self.timers[0].timer.finished(now_ms) {
            let oldest = self.timers[0];
            let index = match self.cell_position(oldest.x, oldest.y) {
                Some(index) => index,
                None => {
                    return;
                },
            };
            self.timers.pop_front();
            let item = self.cells[index].item;
            self.cells[index] = GridCell { item, revealed: false };
            proof {
                assert(self@ =~= o.after_evict(now_ms as int));
            }
        }
    }
}

} // verus!
