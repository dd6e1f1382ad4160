//! The board: a fixed 26 x 22 matrix of cells, each holding at most one item.
//! The grid tracks consumables and hazards only; snake segments leave no mark
//! here, so a spawn may well land underneath the snake's body.

use vstd::prelude::*;
use vstd::pervasive::VecAdditionalExecFns;
use crate::rng::rand_below;

verus! {

/// Number of cell columns on the board.
pub const GRID_COLS: usize = 26;

/// Number of cell rows on the board.
pub const GRID_ROWS: usize = 22;

/// Total number of cells; the backing vector always has exactly this length.
pub const GRID_CELLS: usize = 26 * 22;

/// What a single cell holds.
#[derive(Clone, Copy, Debug, PartialEq, Eq, Structural)]
pub enum Cell {
    Empty,
    Food,
    Bonus,
    Hazard,
}

/// Flat index of the cell at column `c`, row `r`.
pub open spec fn cell_index(c: int, r: int) -> int {
    c * GRID_ROWS as int + r
}

/// Whether `(c, r)` addresses a cell of the board.
pub open spec fn in_grid(c: int, r: int) -> bool {
    0 <= c < GRID_COLS as int && 0 <= r < GRID_ROWS as int
}

/// How many entries of `s` equal `k`.
pub open spec fn count_cells(s: Seq<Cell>, k: Cell) -> nat
    decreases s.len(),
{
    if s.len() == 0 {
        0
    } else {
        count_cells(s.drop_last(), k) + if s.last() == k {
            1nat
        } else {
            0nat
        }
    }
}

/// Two distinct in-range positions have distinct flat indices.
pub proof fn lemma_cell_index_injective(c1: int, r1: int, c2: int, r2: int)
    requires
        in_grid(c1, r1),
        in_grid(c2, r2),
        cell_index(c1, r1) == cell_index(c2, r2),
    ensures
        c1 == c2 && r1 == r2,
{
}

/// Updating one entry adjusts the counts by exactly the entry exchanged.
pub proof fn lemma_count_cells_update(s: Seq<Cell>, i: int, v: Cell, k: Cell)
    requires
        0 <= i < s.len(),
    ensures
        count_cells(s.update(i, v), k) == count_cells(s, k) + (if v == k {
            1int
        } else {
            0int
        }) - (if s[i] == k {
            1int
        } else {
            0int
        }),
    decreases s.len(),
{
    let t = s.update(i, v);
    if i == s.len() - 1 {
        assert(t.drop_last() =~= s.drop_last());
    } else {
        assert(t.drop_last() =~= s.drop_last().update(i, v));
        lemma_count_cells_update(s.drop_last(), i, v, k);
    }
}

/// The fixed-size cell matrix, stored row-contiguously per column.
pub struct Grid {
    pub cells: Vec<Cell>,
}

impl Grid {
    /// Structural soundness: the backing vector covers the whole board.
    pub open spec fn wf(self) -> bool {
        self.cells@.len() == GRID_CELLS as int
    }

    /// The cell at column `c`, row `r`.
    pub open spec fn cell(self, c: int, r: int) -> Cell {
        self.cells@[cell_index(c, r)]
    }

    /// A fresh board with every cell empty.
    pub fn new() -> (g: Grid)
        ensures
            g.wf(),
            forall|c: int, r: int| in_grid(c, r) ==> g.cell(c, r) == Cell::Empty,
            forall|i: int| 0 <= i < GRID_CELLS as int ==> g.cells@[i] == Cell::Empty,
    {
        let mut cells: Vec<Cell> = Vec::new();
        let mut i: usize = 0;
        while i < GRID_CELLS
            invariant
                i <= GRID_CELLS,
                cells@.len() == i as int,
                forall|j: int| 0 <= j < i as int ==> cells@[j] == Cell::Empty,
            decreases GRID_CELLS - i,
        {
            cells.push(Cell::Empty);
            i = i + 1;
        }
        Grid { cells }
    }

    /// Pure query: is the cell at `(c, r)` empty?
    pub fn is_empty(&self, c: usize, r: usize) -> (b: bool)
        requires
            self.wf(),
            in_grid(c as int, r as int),
        ensures
            b == (self.cell(c as int, r as int) == Cell::Empty),
    {
        let cell = self.cells[c * GRID_ROWS + r];
        matches!(cell, Cell::Empty)
    }

    /// The cell at `(c, r)`.
    pub fn cell_at(&self, c: usize, r: usize) -> (k: Cell)
        requires
            self.wf(),
            in_grid(c as int, r as int),
        ensures
            k == self.cell(c as int, r as int),
    {
        self.cells[c * GRID_ROWS + r]
    }

    /// Puts `kind` into a cell. Writing over a non-empty cell is a logic error
    /// in the caller, so emptiness is demanded, not tested.
    pub fn place(&mut self, c: usize, r: usize, kind: Cell)
        requires
            old(self).wf(),
            in_grid(c as int, r as int),
            old(self).cell(c as int, r as int) == Cell::Empty,
        ensures
            final(self).wf(),
            final(self).cells@ == old(self).cells@.update(cell_index(c as int, r as int), kind),
    {
        self.cells.set(c * GRID_ROWS + r, kind);
    }

    /// Resets a cell to empty.
    pub fn clear(&mut self, c: usize, r: usize)
        requires
            old(self).wf(),
            in_grid(c as int, r as int),
        ensures
            final(self).wf(),
            final(self).cells@ == old(self).cells@.update(
                cell_index(c as int, r as int),
                Cell::Empty,
            ),
    {
        self.cells.set(c * GRID_ROWS + r, Cell::Empty);
    }

    /// Rejection sampling: draws uniform positions until one whose cell is
    /// empty comes up. Occupancy stays far below capacity in play, so the
    /// first draw almost always lands; still, the sampling is cut off after
    /// a generous number of draws and a deterministic sweep takes over, so
    /// that the search provably terminates. Only a board with no empty cell
    /// at all yields `None`.
    pub fn random_empty_position(&self, rng: &mut rand::rngs::StdRng) -> (p: Option<
        (usize, usize),
    >)
        requires
            self.wf(),
        ensures
            match p {
                Some(q) => in_grid(q.0 as int, q.1 as int) && self.cell(q.0 as int, q.1 as int)
                    == Cell::Empty,
                None => forall|c: int, r: int| in_grid(c, r) ==> self.cell(c, r) != Cell::Empty,
            },
    {
        let mut fuel: usize = 4096;
        while fuel > 0
            invariant
                self.wf(),
            decreases fuel,
        {
            let c = rand_below(rng, GRID_COLS);
            let r = rand_below(rng, GRID_ROWS);
            if self.is_empty(c, r) {
                return Some((c, r));
            }
            fuel = fuel - 1;
        }
        let mut c: usize = 0;
        while c < GRID_COLS
            invariant
                self.wf(),
                c <= GRID_COLS,
                forall|i: int, j: int|
                    in_grid(i, j) && i < c as int ==> self.cell(i, j) != Cell::Empty,
            decreases GRID_COLS - c,
        {
            let mut r: usize = 0;
            while r < GRID_ROWS
                invariant
                    self.wf(),
                    c < GRID_COLS,
                    r <= GRID_ROWS,
                    forall|i: int, j: int|
                        in_grid(i, j) && i < c as int ==> self.cell(i, j) != Cell::Empty,
                    forall|j: int|
                        0 <= j < r as int ==> self.cell(c as int, j) != Cell::Empty,
                decreases GRID_ROWS - r,
            {
                if self.is_empty(c, r) {
                    return Some((c, r));
                }
                r = r + 1;
            }
            c = c + 1;
        }
        None
    }

    /// Counts the cells holding `k`; lets callers observe spawn effects.
    pub fn count_kind(&self, k: Cell) -> (n: usize)
        requires
            self.wf(),
        ensures
            n as nat == count_cells(self.cells@, k),
    {
        let mut n: usize = 0;
        let mut i: usize = 0;
        while i < GRID_CELLS
            invariant
                self.wf(),
                i <= GRID_CELLS,
                n as nat == count_cells(self.cells@.take(i as int), k),
                n <= i,
            decreases GRID_CELLS - i,
        {
            proof {
                assert(self.cells@.take(i as int + 1).drop_last() =~= self.cells@.take(i as int));
                assert(self.cells@.take(i as int + 1).last() == self.cells@[i as int]);
            }
            let cell = self.cells[i];
            if cell == k {
                n = n + 1;
            }
            i = i + 1;
        }
        proof {
            assert(self.cells@.take(GRID_CELLS as int) =~= self.cells@);
        }
        n
    }
}

} // verus!
