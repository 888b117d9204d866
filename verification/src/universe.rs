//! The cell matrix and its generation-transition rule.
//!
//! A `Universe` owns a fixed `rows x columns` grid of cells and advances it
//! one generation at a time: each cell's next state depends only on its own
//! state and on how many of its eight neighbors are alive, all read from the
//! grid as it stood before the step. Neighbors that fall off the grid's edge
//! count as permanently dead.

use vstd::prelude::*;

verus! {

/// A single cell: alive or dead, with no identity beyond its grid position.
#[derive(Clone, Copy, PartialEq, Eq, Structural, Debug)]
pub struct Cell {
    pub alive: bool,
}

impl Cell {
    pub fn alive() -> (cell: Cell)
        ensures
            cell.alive,
    {
        Cell { alive: true }
    }

    pub fn dead() -> (cell: Cell)
        ensures
            !cell.alive,
    {
        Cell { alive: false }
    }

    pub fn is_alive(&self) -> (alive: bool)
        ensures
            alive == self.alive,
    {
        self.alive
    }
}

/// Why a universe could not be built or read.
#[derive(Clone, Copy, PartialEq, Eq, Structural, Debug)]
pub enum UniverseError {
    /// A dimension was zero.
    InvalidDimensions,
    /// A lower-level synchronization primitive reported a poisoned state;
    /// only holders of a shared universe handle can observe this.
    StateCorrupted,
}

/// The birth/survival thresholds of the transition rule.
///
/// `birth[n]` says whether a dead cell with `n` alive neighbors becomes
/// alive; `survival[n]` says whether a live cell with `n` alive neighbors
/// stays alive. Both tables have one entry for each count from 0 to 8.
#[derive(Debug)]
pub struct Rule {
    pub birth: Vec<bool>,
    pub survival: Vec<bool>,
}

impl Rule {
    pub open spec fn wf(self) -> bool {
        &&& self.birth@.len() == 9
        &&& self.survival@.len() == 9
    }

    /// The classic thresholds: birth on exactly 3, survival on 2 or 3.
    pub open spec fn is_classic(self) -> bool {
        &&& self.wf()
        &&& forall|n: int| 0 <= n < 9 ==> self.birth@[n] == (n == 3)
        &&& forall|n: int| 0 <= n < 9 ==> self.survival@[n] == (n == 2 || n == 3)
    }

    /// Builds the classic rule.
    pub fn classic() -> (rule: Rule)
        ensures
            rule.is_classic(),
    {
        let mut birth: Vec<bool> = Vec::new();
        let mut survival: Vec<bool> = Vec::new();
        let mut n: usize = 0;
        while n < 9
            invariant
                n <= 9,
                birth@.len() == n,
                survival@.len() == n,
                forall|i: int| 0 <= i < n ==> birth@[i] == (i == 3),
                forall|i: int| 0 <= i < n ==> survival@[i] == (i == 2 || i == 3),
            decreases 9 - n,
        {
            birth.push(n == 3);
            survival.push(n == 2 || n == 3);
            n = n + 1;
        }
        Rule { birth, survival }
    }

    /// Builds a rule from caller-chosen threshold tables.
    pub fn new(birth: Vec<bool>, survival: Vec<bool>) -> (result: Result<Rule, UniverseError>)
        ensures
            (birth@.len() == 9 && survival@.len() == 9) <==> result is Ok,
            result matches Ok(rule) ==> (rule.birth@ == birth@ && rule.survival@ == survival@),
    {
        if birth.len() == 9 && survival.len() == 9 {
            Ok(Rule { birth, survival })
        } else {
            Err(UniverseError::InvalidDimensions)
        }
    }

    /// Whether a dead cell with `count` alive neighbors becomes alive.
    pub fn births(&self, count: u8) -> (alive: bool)
        requires
            self.wf(),
            count < 9,
        ensures
            alive == self.birth@[count as int],
    {
        self.birth[count as usize]
    }

    /// Whether a live cell with `count` alive neighbors stays alive.
    pub fn survives(&self, count: u8) -> (alive: bool)
        requires
            self.wf(),
            count < 9,
        ensures
            alive == self.survival@[count as int],
    {
        self.survival[count as usize]
    }
}

/// 1 for an alive cell, 0 for a dead one, when counting neighbors.
pub open spec fn count_one(alive: bool) -> int {
    if alive {
        1
    } else {
        0
    }
}

/// In a row-major grid of `columns`-wide rows, a cell left of row `bound`
/// sits at an index below `bound * columns`.
proof fn lemma_row_major_bound(row: int, column: int, bound: int, columns: int)
    requires
        0 <= row < bound,
        0 <= column < columns,
    ensures
        0 <= row * columns + column < bound * columns,
{
    assert(row * columns + column < bound * columns) by (nonlinear_arith)
        requires
            0 <= row < bound,
            0 <= column < columns,
    ;
    assert(row * columns >= 0) by (nonlinear_arith)
        requires
            row >= 0,
            columns > 0,
    ;
}

/// A rectangular matrix of cells together with its transition rule.
pub struct Universe {
    pub rows: usize,
    pub columns: usize,
    pub rule: Rule,
    pub cells: Vec<Cell>,
}

impl Universe {
    /// The matrix is non-empty, stored row-major, and the rule's tables are
    /// complete.
    pub open spec fn wf(self) -> bool {
        &&& self.rows >= 1
        &&& self.columns >= 1
        &&& self.rows * self.columns <= usize::MAX
        &&& self.cells@.len() == self.rows * self.columns
        &&& self.rule.wf()
    }

    pub open spec fn in_bounds(self, row: int, column: int) -> bool {
        0 <= row < self.rows && 0 <= column < self.columns
    }

    /// The cell at a row-major position.
    pub open spec fn alive(self, row: int, column: int) -> bool {
        self.cells@[row * self.columns + column].alive
    }

    /// Whether a position is both on the grid and alive: positions off the
    /// grid's edge count as permanently dead.
    pub open spec fn alive_clipped(self, row: int, column: int) -> bool {
        self.in_bounds(row, column) && self.alive(row, column)
    }

    /// How many of the eight neighboring positions hold an alive cell.
    pub open spec fn alive_neighbors(self, row: int, column: int) -> int {
        count_one(self.alive_clipped(row - 1, column - 1))
            + count_one(self.alive_clipped(row - 1, column))
            + count_one(self.alive_clipped(row - 1, column + 1))
            + count_one(self.alive_clipped(row, column - 1))
            + count_one(self.alive_clipped(row, column + 1))
            + count_one(self.alive_clipped(row + 1, column - 1))
            + count_one(self.alive_clipped(row + 1, column))
            + count_one(self.alive_clipped(row + 1, column + 1))
    }

    /// The transition rule, read against the grid as it stands: what the
    /// cell at (row, column) is in the next generation.
    pub open spec fn next_alive(self, row: int, column: int) -> bool {
        if self.alive(row, column) {
            self.rule.survival@[self.alive_neighbors(row, column)]
        } else {
            self.rule.birth@[self.alive_neighbors(row, column)]
        }
    }

    /// Every cell on the grid is dead.
    pub open spec fn all_dead(self) -> bool {
        forall|row: int, column: int|
            self.in_bounds(row, column) ==> !self.alive(row, column)
    }

    /// The cells are exactly the generator's stream from `seed`: cell `k` in
    /// row-major order holds the bit of the state `k + 1` steps from `seed`.
    pub open spec fn lcg_seeded(self, seed: u64) -> bool {
        forall|k: int|
            0 <= k < self.rows * self.columns ==> self.cells@[k].alive == crate::rng::lcg_bit(
                crate::rng::lcg_state(seed, (k + 1) as nat),
            )
    }

    pub fn rows(&self) -> (rows: usize)
        ensures
            rows == self.rows,
    {
        self.rows
    }

    pub fn columns(&self) -> (columns: usize)
        ensures
            columns == self.columns,
    {
        self.columns
    }

    /// Reads one cell.
    pub fn get(&self, row: usize, column: usize) -> (alive: bool)
        requires
            self.wf(),
            row < self.rows,
            column < self.columns,
        ensures
            alive == self.alive(row as int, column as int),
    {
        proof {
            lemma_row_major_bound(row as int, column as int, self.rows as int, self.columns as int);
        }
        self.cells[row * self.columns + column].alive
    }

    /// Counts the alive cells among the (up to eight) neighbors of
    /// (row, column), treating positions off the grid as dead.
    pub fn count_alive_neighbors(&self, row: usize, column: usize) -> (count: u8)
        requires
            self.wf(),
            row < self.rows,
            column < self.columns,
        ensures
            count == self.alive_neighbors(row as int, column as int),
            count <= 8,
    {
        let mut count: u8 = 0;
        if row > 0 {
            if column > 0 && self.get(row - 1, column - 1) {
                count = count + 1;
            }
            if self.get(row - 1, column) {
                count = count + 1;
            }
            if column + 1 < self.columns && self.get(row - 1, column + 1) {
                count = count + 1;
            }
        }
        if column > 0 && self.get(row, column - 1) {
            count = count + 1;
        }
        if column + 1 < self.columns && self.get(row, column + 1) {
            count = count + 1;
        }
        if row + 1 < self.rows {
            if column > 0 && self.get(row + 1, column - 1) {
                count = count + 1;
            }
            if self.get(row + 1, column) {
                count = count + 1;
            }
            if column + 1 < self.columns && self.get(row + 1, column + 1) {
                count = count + 1;
            }
        }
        count
    }

    /// Evaluates one full generation against the grid as it stands and
    /// returns the new matrix; the grid itself is not touched, so every
    /// cell is judged by pre-step neighbor counts.
    fn next_cells(&self) -> (next: Vec<Cell>)
        requires
            self.wf(),
        ensures
            next@.len() == self.rows * self.columns,
            forall|row: int, column: int|
                self.in_bounds(row, column) ==> next@[row * self.columns + column].alive
                    == self.next_alive(row, column),
    {
        let rows = self.rows;
        let columns = self.columns;
        let mut next: Vec<Cell> = Vec::new();
        let mut row: usize = 0;
        while row < rows
            invariant
                self.wf(),
                rows == self.rows,
                columns == self.columns,
                row <= rows,
                next@.len() == row * columns,
                forall|r: int, c: int|
                    0 <= r < row && 0 <= c < columns ==> next@[r * columns + c].alive
                        == self.next_alive(r, c),
            decreases rows - row,
        {
            let mut column: usize = 0;
            while column < columns
                invariant
                    self.wf(),
                    rows == self.rows,
                    columns == self.columns,
                    row < rows,
                    column <= columns,
                    next@.len() == row * columns + column,
                    forall|r: int, c: int|
                        0 <= r < row && 0 <= c < columns ==> next@[r * columns + c].alive
                            == self.next_alive(r, c),
                    forall|c: int|
                        0 <= c < column ==> next@[row * columns + c].alive
                            == self.next_alive(row as int, c),
                decreases columns - column,
            {
                let count = self.count_alive_neighbors(row, column);
                let was_alive = self.get(row, column);
                let alive = if was_alive {
                    self.rule.survives(count)
                } else {
                    self.rule.births(count)
                };
                next.push(Cell { alive });
                proof {
                    assert forall|r: int, c: int| 0 <= r < row && 0 <= c < columns
                        implies next@[r * columns + c].alive == self.next_alive(r, c) by {
                        lemma_row_major_bound(r, c, row as int, columns as int);
                    }
                }
                column = column + 1;
            }
            proof {
                assert(row * columns + columns == (row + 1) * columns) by (nonlinear_arith);
                assert forall|r: int, c: int| 0 <= r < row + 1 && 0 <= c < columns
                    implies next@[r * columns + c].alive == self.next_alive(r, c) by {
                    lemma_row_major_bound(r, c, row as int + 1, columns as int);
                }
            }
            row = row + 1;
        }
        next
    }

    /// Advances the universe exactly one generation; the dimensions and the
    /// rule stay as they are.
    pub fn tick(&mut self)
        requires
            old(self).wf(),
        ensures
            final(self).wf(),
            final(self).rows == old(self).rows,
            final(self).columns == old(self).columns,
            final(self).rule == old(self).rule,
            forall|row: int, column: int|
                old(self).in_bounds(row, column) ==> final(self).alive(row, column)
                    == old(self).next_alive(row, column),
    {
        let next = self.next_cells();
        self.cells = next;
    }

    /// Builds a fully dead universe under the classic rule.
    pub fn new(rows: usize, columns: usize) -> (result: Result<Universe, UniverseError>)
        requires
            rows * columns <= usize::MAX,
        ensures
            (rows >= 1 && columns >= 1) <==> result is Ok,
            result matches Ok(universe) ==> {
                &&& universe.wf()
                &&& universe.rows == rows
                &&& universe.columns == columns
                &&& universe.rule.is_classic()
                &&& universe.all_dead()
            },
    {
        if rows == 0 || columns == 0 {
            return Err(UniverseError::InvalidDimensions);
        }
        let total = rows * columns;
        let mut cells: Vec<Cell> = Vec::new();
        let mut i: usize = 0;
        while i < total
            invariant
                i <= total,
                cells@.len() == i,
                forall|j: int| 0 <= j < i ==> !cells@[j].alive,
            decreases total - i,
        {
            cells.push(Cell { alive: false });
            i = i + 1;
        }
        let universe = Universe { rows, columns, rule: Rule::classic(), cells };
        proof {
            assert forall|row: int, column: int| universe.in_bounds(row, column)
                implies !universe.alive(row, column) by {
                lemma_row_major_bound(row, column, rows as int, columns as int);
            }
        }
        Ok(universe)
    }

    /// Builds a universe under the classic rule whose cells are drawn from
    /// the generator: cell `k` in row-major order holds the bit of the
    /// generator's state `k + 1` steps from `seed`.
    pub fn from_seed(rows: usize, columns: usize, seed: u64) -> (result: Result<
        Universe,
        UniverseError,
    >)
        requires
            rows * columns <= usize::MAX,
        ensures
            (rows >= 1 && columns >= 1) <==> result is Ok,
            result matches Ok(universe) ==> {
                &&& universe.wf()
                &&& universe.rows == rows
                &&& universe.columns == columns
                &&& universe.rule.is_classic()
                &&& universe.lcg_seeded(seed)
            },
    {
        if rows == 0 || columns == 0 {
            return Err(UniverseError::InvalidDimensions);
        }
        let total = rows * columns;
        let mut cells: Vec<Cell> = Vec::new();
        let mut state: u64 = seed;
        let mut i: usize = 0;
        while i < total
            invariant
                i <= total,
                cells@.len() == i,
                state == crate::rng::lcg_state(seed, i as nat),
                forall|j: int|
                    0 <= j < i ==> cells@[j].alive == crate::rng::lcg_bit(
                        crate::rng::lcg_state(seed, (j + 1) as nat),
                    ),
            decreases total - i,
        {
            state = crate::rng::lcg_step(state);
            cells.push(Cell { alive: crate::rng::lcg_step_bit(state) });
            i = i + 1;
        }
        Ok(Universe { rows, columns, rule: Rule::classic(), cells })
    }

    /// Builds a universe under the classic rule, each cell drawn from a
    /// generator seeded by the clock: whatever the clock read, the cells are
    /// the generator's stream of some seed.
    pub fn new_random(rows: usize, columns: usize) -> (result: Result<Universe, UniverseError>)
        requires
            rows * columns <= usize::MAX,
        ensures
            (rows >= 1 && columns >= 1) <==> result is Ok,
            result matches Ok(universe) ==> {
                &&& universe.wf()
                &&& universe.rows == rows
                &&& universe.columns == columns
                &&& universe.rule.is_classic()
                &&& exists|seed: u64| universe.lcg_seeded(seed)
            },
    {
        let seed = crate::rng::time_entropy();
        let result = Self::from_seed(rows, columns, seed);
        proof {
            if result is Ok {
                assert(result->Ok_0.lcg_seeded(seed));
            }
        }
        result
    }

    /// Writes one cell; every other cell stays as it is.
    pub fn set_alive(&mut self, row: usize, column: usize, alive: bool)
        requires
            old(self).wf(),
            row < old(self).rows,
            column < old(self).columns,
        ensures
            final(self).wf(),
            final(self).rows == old(self).rows,
            final(self).columns == old(self).columns,
            final(self).rule == old(self).rule,
            final(self).alive(row as int, column as int) == alive,
            forall|r: int, c: int|
                old(self).in_bounds(r, c) && !(r == row && c == column) ==> final(self).alive(r, c)
                    == old(self).alive(r, c),
    {
        proof {
            lemma_row_major_bound(row as int, column as int, self.rows as int, self.columns as int);
        }
        let index = row * self.columns + column;
        self.cells[index] = Cell { alive };
        proof {
            assert forall|r: int, c: int|
                old(self).in_bounds(r, c) && !(r == row && c == column)
                implies self.alive(r, c) == old(self).alive(r, c) by {
                lemma_row_major_bound(r, c, self.rows as int, self.columns as int);
                lemma_distinct_positions_distinct_indices(
                    r,
                    c,
                    row as int,
                    column as int,
                    self.columns as int,
                );
            }
        }
    }

    /// Deep-copies the grid into an immutable snapshot of the same
    /// dimensions and contents.
    pub fn snapshot(&self) -> (snapshot: UniverseSnapshot)
        requires
            self.wf(),
        ensures
            snapshot.wf(),
            snapshot.rows == self.rows,
            snapshot.columns == self.columns,
            snapshot.cells@ == self.cells@,
    {
        let mut cells: Vec<Cell> = Vec::new();
        let mut i: usize = 0;
        let total = self.cells.len();
        while i < total
            invariant
                i <= total,
                total == self.cells@.len(),
                cells@.len() == i,
                forall|j: int| 0 <= j < i ==> cells@[j] == self.cells@[j],
            decreases total - i,
        {
            let cell = self.cells[i];
            cells.push(cell);
            i = i + 1;
        }
        proof {
            assert(cells@ =~= self.cells@);
        }
        UniverseSnapshot { rows: self.rows, columns: self.columns, cells }
    }

    /// The listing's element for (row, column) reports that position and the
    /// cell found there.
    pub open spec fn point_matches(self, points: Seq<UniversePoint>, row: int, column: int) -> bool {
        &&& points[row * self.columns + column].row == row
        &&& points[row * self.columns + column].column == column
        &&& points[row * self.columns + column].cell.alive == self.alive(row, column)
    }

    /// Lists every cell with its position, row-major: the element at index
    /// `row * columns + column` reports that position's cell. The listing is
    /// read-only and reflects the grid at a single instant.
    pub fn iter_cells(&self) -> (points: Vec<UniversePoint>)
        requires
            self.wf(),
        ensures
            points@.len() == self.rows * self.columns,
            forall|row: int, column: int|
                self.in_bounds(row, column) ==> self.point_matches(points@, row, column),
    {
        let rows = self.rows;
        let columns = self.columns;
        let mut points: Vec<UniversePoint> = Vec::new();
        let mut row: usize = 0;
        while row < rows
            invariant
                self.wf(),
                rows == self.rows,
                columns == self.columns,
                row <= rows,
                points@.len() == row * columns,
                forall|r: int, c: int|
                    0 <= r < row && 0 <= c < columns ==> self.point_matches(points@, r, c),
            decreases rows - row,
        {
            let mut column: usize = 0;
            while column < columns
                invariant
                    self.wf(),
                    rows == self.rows,
                    columns == self.columns,
                    row < rows,
                    column <= columns,
                    points@.len() == row * columns + column,
                    forall|r: int, c: int|
                        0 <= r < row && 0 <= c < columns ==> self.point_matches(points@, r, c),
                    forall|c: int|
                        0 <= c < column ==> self.point_matches(points@, row as int, c),
                decreases columns - column,
            {
                let alive = self.get(row, column);
                let ghost pre = points@;
                points.push(UniversePoint { row, column, cell: Cell { alive } });
                proof {
                    assert forall|r: int, c: int|
                        0 <= r < row && 0 <= c < columns
                        implies self.point_matches(points@, r, c) by {
                        lemma_row_major_bound(r, c, row as int, columns as int);
                        assert(self.point_matches(pre, r, c));
                        assert(points@[r * columns + c] == pre[r * columns + c]);
                    }
                    assert forall|c: int|
                        0 <= c < column + 1
                        implies self.point_matches(points@, row as int, c) by {
                        if c < column {
                            assert(self.point_matches(pre, row as int, c));
                            assert(points@[row * columns + c] == pre[row * columns + c]);
                        }
                    }
                }
                column = column + 1;
            }
            proof {
                assert(row * columns + columns == (row + 1) * columns) by (nonlinear_arith);
                assert forall|r: int, c: int|
                    0 <= r < row + 1 && 0 <= c < columns
                    implies self.point_matches(points@, r, c) by {
                    lemma_row_major_bound(r, c, row as int + 1, columns as int);
                }
            }
            row = row + 1;
        }
        points
    }
}

/// The classic rule in one sentence: after a step, a cell is alive exactly
/// when it had three alive neighbors, or it was alive and had two.
pub proof fn lemma_classic_rule(universe: Universe, row: int, column: int)
    requires
        universe.wf(),
        universe.rule.is_classic(),
        universe.in_bounds(row, column),
    ensures
        universe.next_alive(row, column) <==> (universe.alive_neighbors(row, column) == 3 || (
        universe.alive(row, column) && universe.alive_neighbors(row, column) == 2)),
{
    assert(0 <= universe.alive_neighbors(row, column) < 9);
}

/// A fully dead grid is a fixed point: one generation of any rule that does
/// not birth on zero neighbors leaves every cell dead, and so, step after
/// step, the grid stays dead forever.
pub proof fn lemma_dead_grid_stays_dead(universe: Universe)
    requires
        universe.wf(),
        universe.all_dead(),
        !universe.rule.birth@[0],
    ensures
        forall|row: int, column: int|
            universe.in_bounds(row, column) ==> !universe.next_alive(row, column),
{
    assert forall|row: int, column: int|
        universe.in_bounds(row, column) implies !universe.next_alive(row, column) by {
        assert(!universe.alive_clipped(row - 1, column - 1));
        assert(!universe.alive_clipped(row - 1, column));
        assert(!universe.alive_clipped(row - 1, column + 1));
        assert(!universe.alive_clipped(row, column - 1));
        assert(!universe.alive_clipped(row, column + 1));
        assert(!universe.alive_clipped(row + 1, column - 1));
        assert(!universe.alive_clipped(row + 1, column));
        assert(!universe.alive_clipped(row + 1, column + 1));
        assert(universe.alive_neighbors(row, column) == 0);
        assert(!universe.alive(row, column));
    }
}

/// The fixed point carries across a step: a universe whose cells are the
/// next generation of a fully dead one (as `tick` leaves them) is itself
/// fully dead — so the grid stays dead for any number of ticks.
pub proof fn lemma_dead_grid_stays_dead_after_tick(before: Universe, after: Universe)
    requires
        before.wf(),
        before.all_dead(),
        !before.rule.birth@[0],
        after.rows == before.rows,
        after.columns == before.columns,
        forall|row: int, column: int|
            before.in_bounds(row, column) ==> after.alive(row, column) == before.next_alive(
                row,
                column,
            ),
    ensures
        after.all_dead(),
{
    lemma_dead_grid_stays_dead(before);
    assert forall|row: int, column: int|
        after.in_bounds(row, column) implies !after.alive(row, column) by {
        assert(before.in_bounds(row, column));
        assert(!before.next_alive(row, column));
    }
}

/// One element of a universe's cell-by-cell iteration: a position and the
/// cell found there.
#[derive(Clone, Copy, PartialEq, Eq, Structural, Debug)]
pub struct UniversePoint {
    pub row: usize,
    pub column: usize,
    pub cell: Cell,
}

impl UniversePoint {
    pub fn row(&self) -> (row: usize)
        ensures
            row == self.row,
    {
        self.row
    }

    pub fn column(&self) -> (column: usize)
        ensures
            column == self.column,
    {
        self.column
    }

    pub fn cell(&self) -> (cell: Cell)
        ensures
            cell == self.cell,
    {
        self.cell
    }
}

/// An immutable copy of a universe's cell matrix and dimensions, taken at a
/// single instant; it keeps no tie to the live universe.
#[derive(Debug)]
pub struct UniverseSnapshot {
    pub rows: usize,
    pub columns: usize,
    pub cells: Vec<Cell>,
}

impl UniverseSnapshot {
    pub open spec fn wf(self) -> bool {
        &&& self.rows >= 1
        &&& self.columns >= 1
        &&& self.rows * self.columns <= usize::MAX
        &&& self.cells@.len() == self.rows * self.columns
    }

    pub open spec fn alive(self, row: int, column: int) -> bool {
        self.cells@[row * self.columns + column].alive
    }

    pub open spec fn in_bounds(self, row: int, column: int) -> bool {
        0 <= row < self.rows && 0 <= column < self.columns
    }

    pub fn rows(&self) -> (rows: usize)
        ensures
            rows == self.rows,
    {
        self.rows
    }

    pub fn columns(&self) -> (columns: usize)
        ensures
            columns == self.columns,
    {
        self.columns
    }

    pub fn get(&self, row: usize, column: usize) -> (alive: bool)
        requires
            self.wf(),
            row < self.rows,
            column < self.columns,
        ensures
            alive == self.alive(row as int, column as int),
    {
        proof {
            lemma_row_major_bound(row as int, column as int, self.rows as int, self.columns as int);
        }
        self.cells[row * self.columns + column].alive
    }
}

/// Two distinct in-bounds positions of a row-major grid have distinct
/// indices.
proof fn lemma_distinct_positions_distinct_indices(
    r1: int,
    c1: int,
    r2: int,
    c2: int,
    columns: int,
)
    requires
        0 <= c1 < columns,
        0 <= c2 < columns,
        r1 >= 0,
        r2 >= 0,
        !(r1 == r2 && c1 == c2),
    ensures
        r1 * columns + c1 != r2 * columns + c2,
{
    if r1 == r2 {
    } else {
        assert(r1 * columns + c1 != r2 * columns + c2) by (nonlinear_arith)
            requires
                0 <= c1 < columns,
                0 <= c2 < columns,
                r1 >= 0,
                r2 >= 0,
                r1 != r2,
        ;
    }
}

} // verus!
