//! Pixel geometry of the board: a square of three by three cells, each
//! `CELL_SIZE` pixels wide.
use vstd::prelude::*;

verus! {

/// Width and height of one cell, in pixels.
pub const CELL_SIZE: u32 = 128;

/// Number of cells along one side of the board.
pub const CELLS_PER_SIDE: usize = 3;

/// Number of cells on the board.
pub const BOARD_CELLS: usize = 9;

/// Width and height of the whole board, in pixels.
pub const BOARD_PIXELS: u32 = 384;

/// Why a move or a click was not applied.
#[derive(Clone, Copy, Debug, PartialEq, Eq, Structural)]
pub enum MoveError {
    /// The cell is already taken, or its index lies outside the board.
    InvalidMove,
    /// The pixel lies outside the board.
    OutOfBounds,
}

/// Top-left pixel of a cell: column `cell % 3`, row `cell / 3`.
pub open spec fn cell_to_point(cell: int) -> (int, int) {
    ((cell % 3) * 128, (cell / 3) * 128)
}

/// Whether a pixel lies on the board.
pub open spec fn on_board(x: int, y: int) -> bool {
    0 <= x < 384 && 0 <= y < 384
}

/// The cell under a pixel of the board, row-major.
pub open spec fn point_to_cell(x: int, y: int) -> int {
    (y / 128) * 3 + x / 128
}

/// Where to draw a cell's mark: the top-left pixel of the cell.
pub fn get_point_by_cell(cell: usize) -> (r: (u32, u32))
    requires
        cell < BOARD_CELLS,
    ensures
        r.0 as int == cell_to_point(cell as int).0,
        r.1 as int == cell_to_point(cell as int).1,
{
    let col = (cell % CELLS_PER_SIDE) as u32;
    let row = (cell / CELLS_PER_SIDE) as u32;
    (col * CELL_SIZE, row * CELL_SIZE)
}

/// The cell under a pixel, or `OutOfBounds` where the pixel is off the board.
pub fn get_cell(x: i64, y: i64) -> (r: Result<usize, MoveError>)
    ensures
        on_board(x as int, y as int) ==> r == Ok::<usize, MoveError>(
            point_to_cell(x as int, y as int) as usize,
        ),
        on_board(x as int, y as int) ==> point_to_cell(x as int, y as int) < BOARD_CELLS,
        !on_board(x as int, y as int) ==> r == Err::<usize, MoveError>(MoveError::OutOfBounds),
{
    if x < 0 || y < 0 || x >= BOARD_PIXELS as i64 || y >= BOARD_PIXELS as i64 {
        return Err(MoveError::OutOfBounds);
    }
    let col = (x / CELL_SIZE as i64) as usize;
    let row = (y / CELL_SIZE as i64) as usize;
    Ok(row * CELLS_PER_SIDE + col)
}

/// Every cell's drawing position maps back to that cell.
pub proof fn lemma_cell_point_round_trip(cell: int)
    requires
        0 <= cell < 9,
    ensures
        on_board(cell_to_point(cell).0, cell_to_point(cell).1),
        point_to_cell(cell_to_point(cell).0, cell_to_point(cell).1) == cell,
{
    assert(cell == 0 || cell == 1 || cell == 2 || cell == 3 || cell == 4 || cell == 5 || cell
        == 6 || cell == 7 || cell == 8);
}

/// A line segment of the grid, from one pixel to another.
pub type Segment = ((u32, u32), (u32, u32));

/// The grid's segment `k`: vertical lines at `x = 128 * k` for `k < 4`, then
/// horizontal lines at `y = 128 * (k - 4)`, each across the whole board.
pub open spec fn grid_segment(k: int) -> ((int, int), (int, int)) {
    if k < 4 {
        ((128 * k, 0), (128 * k, 384))
    } else {
        ((0, 128 * (k - 4)), (384, 128 * (k - 4)))
    }
}

/// The eight segments that draw the grid: four vertical, then four horizontal.
pub fn grid_lines() -> (r: Vec<Segment>)
    ensures
        r@.len() == 8,
        forall|k: int|
            0 <= k < 8 ==> {
                &&& r@[k].0.0 as int == grid_segment(k).0.0
                &&& r@[k].0.1 as int == grid_segment(k).0.1
                &&& r@[k].1.0 as int == grid_segment(k).1.0
                &&& r@[k].1.1 as int == grid_segment(k).1.1
            },
{
    let mut r: Vec<Segment> = Vec::new();
    let mut i: u32 = 0;
    while i < 4
        invariant
            i <= 4,
            r@.len() == i,
            forall|k: int|
                0 <= k < i ==> {
                    &&& r@[k].0.0 as int == grid_segment(k).0.0
                    &&& r@[k].0.1 as int == grid_segment(k).0.1
                    &&& r@[k].1.0 as int == grid_segment(k).1.0
                    &&& r@[k].1.1 as int == grid_segment(k).1.1
                },
        decreases 4 - i,
    {
        let x = i * CELL_SIZE;
        r.push(((x, 0), (x, BOARD_PIXELS)));
        i = i + 1;
    }
    let mut j: u32 = 0;
    while j < 4
        invariant
            j <= 4,
            r@.len() == 4 + j,
            forall|k: int|
                0 <= k < 4 + j ==> {
                    &&& r@[k].0.0 as int == grid_segment(k).0.0
                    &&& r@[k].0.1 as int == grid_segment(k).0.1
                    &&& r@[k].1.0 as int == grid_segment(k).1.0
                    &&& r@[k].1.1 as int == grid_segment(k).1.1
                },
        decreases 4 - j,
    {
        let y = j * CELL_SIZE;
        r.push(((0, y), (BOARD_PIXELS, y)));
        j = j + 1;
    }
    r
}

} // verus!
