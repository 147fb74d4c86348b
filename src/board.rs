//! The 3x3 grid, with the free cells kept beside it in ascending order.
use vstd::prelude::*;

use crate::geometry::{MoveError, BOARD_CELLS};

verus! {

/// What a cell holds.
#[derive(Clone, Copy, Debug, PartialEq, Eq, Structural)]
pub enum Cell {
    Empty,
    Human,
    Ai,
}

/// The indices below `n` of the empty cells, in ascending order.
pub open spec fn free_indices(cells: Seq<Cell>, n: nat) -> Seq<usize>
    decreases n,
{
    if n == 0 {
        seq![]
    } else {
        let before = free_indices(cells, (n - 1) as nat);
        if cells[n - 1] == Cell::Empty {
            before.push((n - 1) as usize)
        } else {
            before
        }
    }
}

/// How many of the first `n` cells hold `c`.
pub open spec fn count_prefix(cells: Seq<Cell>, c: Cell, n: nat) -> nat
    decreases n,
{
    if n == 0 {
        0
    } else {
        count_prefix(cells, c, (n - 1) as nat) + if cells[n - 1] == c {
            1nat
        } else {
            0nat
        }
    }
}

/// How many cells of the board hold `c`.
pub open spec fn count(cells: Seq<Cell>, c: Cell) -> nat {
    count_prefix(cells, c, 9)
}

/// No cell of the board is empty.
pub open spec fn is_full(cells: Seq<Cell>) -> bool {
    forall|i: int| 0 <= i < 9 ==> cells[i] != Cell::Empty
}

/// The occupied cells below `n`, each with its occupant, in ascending order.
pub open spec fn occupied_prefix(cells: Seq<Cell>, n: nat) -> Seq<(usize, Cell)>
    decreases n,
{
    if n == 0 {
        seq![]
    } else {
        let before = occupied_prefix(cells, (n - 1) as nat);
        if cells[n - 1] != Cell::Empty {
            before.push(((n - 1) as usize, cells[n - 1]))
        } else {
            before
        }
    }
}

/// The three cells of winning line `k`, for the eight lines: three rows, three
/// columns and two diagonals.
pub open spec fn line(k: int) -> (int, int, int) {
    if k == 0 {
        (0, 1, 2)
    } else if k == 1 {
        (3, 4, 5)
    } else if k == 2 {
        (6, 7, 8)
    } else if k == 3 {
        (0, 3, 6)
    } else if k == 4 {
        (1, 4, 7)
    } else if k == 5 {
        (2, 5, 8)
    } else if k == 6 {
        (0, 4, 8)
    } else {
        (2, 4, 6)
    }
}

/// `who` holds all three cells of line `k`.
pub open spec fn holds_line(cells: Seq<Cell>, who: Cell, k: int) -> bool {
    &&& cells[line(k).0] == who
    &&& cells[line(k).1] == who
    &&& cells[line(k).2] == who
}

/// `who` holds some complete line.
pub open spec fn has_line(cells: Seq<Cell>, who: Cell) -> bool {
    exists|k: int| 0 <= k < 8 && #[trigger] holds_line(cells, who, k)
}

/// The board: nine cells in row-major order and the indices of the empty ones.
pub struct Board {
    cells: Vec<Cell>,
    free: Vec<usize>,
}

impl View for Board {
    type V = Seq<Cell>;

    closed spec fn view(&self) -> Seq<Cell> {
        self.cells@
    }
}

impl Board {
    /// The free cells that the board keeps.
    pub closed spec fn free_view(&self) -> Seq<usize> {
        self.free@
    }

    /// Nine cells, and the free list is exactly the empty cells in ascending order.
    pub open spec fn wf(&self) -> bool {
        &&& self@.len() == 9
        &&& self.free_view() == free_indices(self@, 9)
    }

    /// An empty board.
    pub fn new() -> (r: Board)
        ensures
            r.wf(),
            r@ == Seq::new(9, |i: int| Cell::Empty),
    {
        let mut cells: Vec<Cell> = Vec::new();
        let mut i: usize = 0;
        while i < BOARD_CELLS
            invariant
                i <= 9,
                cells@ == Seq::new(i as nat, |j: int| Cell::Empty),
            decreases 9 - i,
        {
            cells.push(Cell::Empty);
            i = i + 1;
        }
        let free = collect_free(&cells);
        Board { cells, free }
    }

    /// What cell `cell` holds.
    pub fn cell(&self, cell: usize) -> (r: Cell)
        requires
            self.wf(),
            cell < BOARD_CELLS,
        ensures
            r == self@[cell as int],
    {
        self.cells[cell]
    }

    /// Whether `cell` is on the board and empty.
    pub fn is_empty(&self, cell: usize) -> (r: bool)
        requires
            self.wf(),
        ensures
            r == (cell < BOARD_CELLS && self@[cell as int] == Cell::Empty),
    {
        cell < BOARD_CELLS && self.cells[cell] == Cell::Empty
    }

    /// Puts `who` on `cell`; `InvalidMove` where the cell is off the board or
    /// taken, and then nothing changes.
    pub fn occupy(&mut self, cell: usize, who: Cell) -> (r: Result<(), MoveError>)
        requires
            old(self).wf(),
            who != Cell::Empty,
        ensures
            final(self).wf(),
            (cell < BOARD_CELLS && old(self)@[cell as int] == Cell::Empty) ==> r == Ok::<
                (),
                MoveError,
            >(()) && final(self)@ == old(self)@.update(cell as int, who),
            !(cell < BOARD_CELLS && old(self)@[cell as int] == Cell::Empty) ==> r == Err::<
                (),
                MoveError,
            >(MoveError::InvalidMove) && final(self)@ == old(self)@,
    {
        if !self.is_empty(cell) {
            return Err(MoveError::InvalidMove);
        }
        self.cells.set(cell, who);
        self.free = collect_free(&self.cells);
        Ok(())
    }

    /// The empty cells, in ascending order.
    pub fn free_cells(&self) -> (r: Vec<usize>)
        requires
            self.wf(),
        ensures
            r@ == free_indices(self@, 9),
    {
        let mut r: Vec<usize> = Vec::new();
        let mut i: usize = 0;
        while i < self.free.len()
            invariant
                i <= self.free@.len(),
                r@ == self.free@.subrange(0, i as int),
            decreases self.free@.len() - i,
        {
            r.push(self.free[i]);
            i = i + 1;
            assert(r@ =~= self.free@.subrange(0, i as int));
        }
        assert(r@ =~= self.free@);
        r
    }

    /// Number of empty cells.
    pub fn free_count(&self) -> (r: usize)
        requires
            self.wf(),
        ensures
            r == free_indices(self@, 9).len(),
    {
        self.free.len()
    }

    /// The empty cell at position `k` of the free list.
    pub fn free_at(&self, k: usize) -> (r: usize)
        requires
            self.wf(),
            k < free_indices(self@, 9).len(),
        ensures
            r == free_indices(self@, 9)[k as int],
    {
        self.free[k]
    }

    /// Whether no cell is empty.
    pub fn is_full(&self) -> (r: bool)
        requires
            self.wf(),
        ensures
            r == is_full(self@),
    {
        proof {
            lemma_free_empty_iff_full(self@, 9);
        }
        self.free.len() == 0
    }

    /// The occupied cells with their occupants, in ascending order of index.
    pub fn occupied_cells(&self) -> (r: Vec<(usize, Cell)>)
        requires
            self.wf(),
        ensures
            r@ == occupied_prefix(self@, 9),
    {
        let mut r: Vec<(usize, Cell)> = Vec::new();
        let mut i: usize = 0;
        while i < BOARD_CELLS
            invariant
                i <= 9,
                self@.len() == 9,
                r@ == occupied_prefix(self@, i as nat),
            decreases 9 - i,
        {
            let c = self.cells[i];
            if c != Cell::Empty {
                r.push((i, c));
            }
            i = i + 1;
        }
        r
    }

    /// Whether `who` holds a complete row, column or diagonal.
    pub fn has_line(&self, who: Cell) -> (r: bool)
        requires
            self.wf(),
        ensures
            r == has_line(self@, who),
    {
        let mut k: usize = 0;
        while k < 8
            invariant
                k <= 8,
                self@.len() == 9,
                forall|j: int| 0 <= j < k ==> !holds_line(self@, who, j),
            decreases 8 - k,
        {
            let (a, b, c) = line_cells(k);
            if self.cells[a] == who && self.cells[b] == who && self.cells[c] == who {
                assert(holds_line(self@, who, k as int));
                return true;
            }
            k = k + 1;
        }
        false
    }
}

/// The three cells of winning line `k`.
fn line_cells(k: usize) -> (r: (usize, usize, usize))
    requires
        k < 8,
    ensures
        r.0 as int == line(k as int).0,
        r.1 as int == line(k as int).1,
        r.2 as int == line(k as int).2,
        r.0 < 9 && r.1 < 9 && r.2 < 9,
{
    match k {
        0 => (0, 1, 2),
        1 => (3, 4, 5),
        2 => (6, 7, 8),
        3 => (0, 3, 6),
        4 => (1, 4, 7),
        5 => (2, 5, 8),
        6 => (0, 4, 8),
        _ => (2, 4, 6),
    }
}

/// The indices of the empty cells, in ascending order.
fn collect_free(cells: &Vec<Cell>) -> (r: Vec<usize>)
    requires
        cells@.len() == 9,
    ensures
        r@ == free_indices(cells@, 9),
{
    let mut r: Vec<usize> = Vec::new();
    let mut i: usize = 0;
    while i < BOARD_CELLS
        invariant
            i <= 9,
            cells@.len() == 9,
            r@ == free_indices(cells@, i as nat),
        decreases 9 - i,
    {
        if cells[i] == Cell::Empty {
            r.push(i);
        }
        i = i + 1;
    }
    r
}

/// The free list below `n` is empty exactly when none of the first `n` cells is.
pub proof fn lemma_free_empty_iff_full(cells: Seq<Cell>, n: nat)
    requires
        n <= cells.len(),
    ensures
        (free_indices(cells, n).len() == 0) == (forall|i: int| 0 <= i < n ==> cells[i] != Cell::Empty),
    decreases n,
{
    if n > 0 {
        lemma_free_empty_iff_full(cells, (n - 1) as nat);
        lemma_free_len_is_empty_count(cells, (n - 1) as nat);
    }
}

/// The free list below `n` has one entry per empty cell below `n`.
pub proof fn lemma_free_len_is_empty_count(cells: Seq<Cell>, n: nat)
    requires
        n <= cells.len(),
    ensures
        free_indices(cells, n).len() == count_prefix(cells, Cell::Empty, n),
    decreases n,
{
    if n > 0 {
        lemma_free_len_is_empty_count(cells, (n - 1) as nat);
    }
}

/// Among the first `n` cells, the empty, human and opponent ones add up to `n`.
proof fn lemma_counts_add_up(cells: Seq<Cell>, n: nat)
    requires
        n <= cells.len(),
    ensures
        count_prefix(cells, Cell::Empty, n) + count_prefix(cells, Cell::Human, n) + count_prefix(
            cells,
            Cell::Ai,
            n,
        ) == n,
    decreases n,
{
    if n > 0 {
        lemma_counts_add_up(cells, (n - 1) as nat);
    }
}

/// On every well-formed board the empty, human and opponent cells add up to
/// nine, and the free list has one entry per empty cell.
pub proof fn lemma_board_counts(b: &Board)
    requires
        b.wf(),
    ensures
        count(b@, Cell::Empty) + count(b@, Cell::Human) + count(b@, Cell::Ai) == 9,
        b.free_view().len() == count(b@, Cell::Empty),
{
    lemma_counts_add_up(b@, 9);
    lemma_free_len_is_empty_count(b@, 9);
}

/// Each entry of the free list below `n` is an empty cell below `n`.
pub proof fn lemma_free_entries(cells: Seq<Cell>, n: nat)
    requires
        n <= cells.len(),
        n <= 9,
    ensures
        forall|i: int|
            0 <= i < free_indices(cells, n).len() ==> {
                &&& (free_indices(cells, n)[i] as int) < n
                &&& cells[free_indices(cells, n)[i] as int] == Cell::Empty
            },
    decreases n,
{
    if n > 0 {
        lemma_free_entries(cells, (n - 1) as nat);
        let before = free_indices(cells, (n - 1) as nat);
        if cells[n - 1] == Cell::Empty {
            assert forall|i: int| 0 <= i < before.len() implies before.push(
                (n - 1) as usize,
            )[i] == before[i] by {}
        }
    }
}

} // verus!
