//! Turns and outcome: the human moves, then, while the game runs, the
//! opponent takes a free cell chosen uniformly at random.
use vstd::prelude::*;

use rand::Rng;

use crate::board::{count, free_indices, has_line, is_full, Board, Cell};
use crate::geometry::{get_cell, on_board, point_to_cell, MoveError, BOARD_CELLS};

verus! {

/// Where the game stands; every value but `Running` is final.
#[derive(Clone, Copy, Debug, PartialEq, Eq, Structural)]
pub enum GameStatus {
    Running,
    Won,
    Lost,
    Draw,
}

/// The game as a value: the nine cells and the status.
pub struct GameView {
    pub cells: Seq<Cell>,
    pub status: GameStatus,
}

/// The status after `mover` has just moved on `cells`: a completed line ends
/// the game for the mover's side, else a full board is a draw.
pub open spec fn status_after(cells: Seq<Cell>, mover: Cell) -> GameStatus {
    if has_line(cells, mover) {
        if mover == Cell::Human {
            GameStatus::Won
        } else {
            GameStatus::Lost
        }
    } else if is_full(cells) {
        GameStatus::Draw
    } else {
        GameStatus::Running
    }
}

/// Whether a move on `cell` is taken: the game runs and the cell is on the
/// board and empty.
pub open spec fn accepts(v: GameView, cell: int) -> bool {
    v.status == GameStatus::Running && 0 <= cell < 9 && v.cells[cell] == Cell::Empty
}

/// The game after `who` plays `cell`; a move that is not accepted changes nothing.
pub open spec fn step(v: GameView, cell: int, who: Cell) -> GameView {
    if accepts(v, cell) {
        let cells = v.cells.update(cell, who);
        GameView { cells, status: status_after(cells, who) }
    } else {
        v
    }
}

/// The game after the human plays `cell`.
pub open spec fn human_step(v: GameView, cell: int) -> GameView {
    step(v, cell, Cell::Human)
}

/// The games that can follow the human's move on `cell`: the human's move
/// alone where it was refused or ended the game, else that move and then the
/// opponent's on one of the cells left free.
pub open spec fn after_click(v: GameView, cell: int, r: GameView) -> bool {
    let h = human_step(v, cell);
    if h.status != GameStatus::Running || !accepts(v, cell) {
        r == h
    } else {
        exists|i: int|
            0 <= i < free_indices(h.cells, 9).len() && r == step(
                h,
                free_indices(h.cells, 9)[i] as int,
                Cell::Ai,
            )
    }
}

/// Relies on rand::thread_rng and rand::Rng::gen_range: a number drawn
/// uniformly from `0..n`, which lies in that range; gen_range panics on an
/// empty range, which `requires` rules out.
#[verifier::external_body]
fn random_below(n: usize) -> (r: usize)
    requires
        n > 0,
    ensures
        r < n,
{
    rand::thread_rng().gen_range(0..n)
}

/// A game session: the board and the status.
pub struct GameState {
    board: Board,
    status: GameStatus,
}

impl View for GameState {
    type V = GameView;

    closed spec fn view(&self) -> GameView {
        GameView { cells: self.board@, status: self.status }
    }
}

impl GameState {
    /// The board is well formed, and a running game has a free cell left.
    pub closed spec fn wf(&self) -> bool {
        &&& self.board.wf()
        &&& self.status == GameStatus::Running ==> !is_full(self.board@)
    }

    /// A running game on an empty board.
    pub fn new() -> (r: GameState)
        ensures
            r.wf(),
            r@.cells == Seq::new(9, |i: int| Cell::Empty),
            r@.status == GameStatus::Running,
    {
        let board = Board::new();
        GameState { board, status: GameStatus::Running }
    }

    /// The current status.
    pub fn status(&self) -> (r: GameStatus)
        ensures
            r == self@.status,
    {
        self.status
    }

    /// The board, for drawing.
    pub fn board(&self) -> (r: &Board)
        requires
            self.wf(),
        ensures
            r.wf(),
            r@ == self@.cells,
    {
        &self.board
    }

    /// The human plays `cell`; returns whether the move was taken. A move on a
    /// taken cell, off the board or after the end changes nothing.
    pub fn human_move(&mut self, cell: usize) -> (r: bool)
        requires
            old(self).wf(),
        ensures
            final(self).wf(),
            r == accepts(old(self)@, cell as int),
            final(self)@ == human_step(old(self)@, cell as int),
    {
        self.play(cell, Cell::Human)
    }

    /// The opponent plays the free cell at position `choice` of the free list.
    pub fn ai_move(&mut self, choice: usize)
        requires
            old(self).wf(),
            old(self)@.status == GameStatus::Running,
            choice < free_indices(old(self)@.cells, 9).len(),
        ensures
            final(self).wf(),
            final(self)@ == step(
                old(self)@,
                free_indices(old(self)@.cells, 9)[choice as int] as int,
                Cell::Ai,
            ),
    {
        proof {
            crate::board::lemma_free_entries(self.board@, 9);
        }
        let target = self.board.free_at(choice);
        self.play(target, Cell::Ai);
    }

    /// `who` plays `cell` where the game accepts it; the status follows.
    fn play(&mut self, cell: usize, who: Cell) -> (r: bool)
        requires
            old(self).wf(),
            who != Cell::Empty,
        ensures
            final(self).wf(),
            r == accepts(old(self)@, cell as int),
            final(self)@ == step(old(self)@, cell as int, who),
    {
        if self.status != GameStatus::Running || !self.board.is_empty(cell) {
            return false;
        }
        let _ = self.board.occupy(cell, who);
        if self.board.has_line(who) {
            self.status = if who == Cell::Human {
                GameStatus::Won
            } else {
                GameStatus::Lost
            };
        } else if self.board.is_full() {
            self.status = GameStatus::Draw;
        }
        true
    }

    /// The human plays `cell`; where the game then still runs, the opponent
    /// answers on a free cell drawn uniformly at random. Returns whether the
    /// human's move was taken.
    pub fn play_cell(&mut self, cell: usize) -> (r: bool)
        requires
            old(self).wf(),
        ensures
            final(self).wf(),
            r == accepts(old(self)@, cell as int),
            after_click(old(self)@, cell as int, final(self)@),
    {
        if !self.human_move(cell) {
            return false;
        }
        if self.status == GameStatus::Running {
            let n = self.board.free_count();
            proof {
                crate::board::lemma_free_empty_iff_full(self.board@, 9);
            }
            let choice = random_below(n);
            self.ai_move(choice);
        }
        true
    }

    /// A press of a mouse button at pixel `(x, y)`. Only the primary button
    /// counts, and only while the game runs; a pixel off the board is
    /// `OutOfBounds` and changes nothing; a taken cell is ignored.
    pub fn on_pointer_down(&mut self, primary: bool, x: i64, y: i64) -> (r: Result<(), MoveError>)
        requires
            old(self).wf(),
        ensures
            final(self).wf(),
            !primary || old(self)@.status != GameStatus::Running ==> r == Ok::<(), MoveError>(())
                && final(self)@ == old(self)@,
            primary && old(self)@.status == GameStatus::Running && !on_board(x as int, y as int)
                ==> r == Err::<(), MoveError>(MoveError::OutOfBounds) && final(self)@ == old(
                self,
            )@,
            primary && old(self)@.status == GameStatus::Running && on_board(x as int, y as int)
                ==> r == Ok::<(), MoveError>(()) && after_click(
                old(self)@,
                point_to_cell(x as int, y as int),
                final(self)@,
            ),
    {
        if !primary || self.status != GameStatus::Running {
            return Ok(());
        }
        match get_cell(x, y) {
            Ok(cell) => {
                self.play_cell(cell);
                Ok(())
            },
            Err(e) => Err(e),
        }
    }

    /// The message of a finished game.
    pub fn end_text(&self) -> (r: &'static str)
        requires
            self@.status != GameStatus::Running,
        ensures
            self@.status == GameStatus::Draw ==> r@ == "Draw!"@,
            self@.status == GameStatus::Lost ==> r@ == "You lost"@,
            self@.status == GameStatus::Won ==> r@ == "You won"@,
    {
        match self.status {
            GameStatus::Draw => "Draw!",
            GameStatus::Lost => "You lost",
            _ => "You won",
        }
    }
}

/// Pressing a taken cell changes neither the board nor the status.
pub proof fn lemma_taken_cell_changes_nothing(v: GameView, cell: int, r: GameView)
    requires
        0 <= cell < 9,
        v.cells[cell] != Cell::Empty,
        after_click(v, cell, r),
    ensures
        r == v,
{
}

/// A human move that completes a line wins at once: the status is `Won` and
/// the opponent does not move.
pub proof fn lemma_human_line_wins_first(v: GameView, cell: int, r: GameView)
    requires
        accepts(v, cell),
        has_line(v.cells.update(cell, Cell::Human), Cell::Human),
        after_click(v, cell, r),
    ensures
        r.cells == v.cells.update(cell, Cell::Human),
        r.status == GameStatus::Won,
{
}

/// A move that fills the board without completing a line of the mover's is a
/// draw.
pub proof fn lemma_full_board_is_draw(v: GameView, cell: int, who: Cell)
    requires
        accepts(v, cell),
        is_full(v.cells.update(cell, who)),
        !has_line(v.cells.update(cell, who), who),
    ensures
        step(v, cell, who).status == GameStatus::Draw,
{
}

/// A finished game, a draw among them, takes no further move: neither the
/// human's nor the opponent's.
pub proof fn lemma_finished_game_is_fixed(v: GameView, cell: int, who: Cell, r: GameView)
    requires
        v.status != GameStatus::Running,
    ensures
        step(v, cell, who) == v,
        after_click(v, cell, r) ==> r == v,
{
}

/// A game's board always holds nine cells, the empty, human and opponent
/// ones adding up to nine, and its free list has one entry per empty cell.
pub proof fn lemma_game_counts(g: &GameState)
    requires
        g.wf(),
    ensures
        g@.cells.len() == 9,
        count(g@.cells, Cell::Empty) + count(g@.cells, Cell::Human) + count(g@.cells, Cell::Ai)
            == 9,
        free_indices(g@.cells, 9).len() == count(g@.cells, Cell::Empty),
{
    crate::board::lemma_board_counts(&g.board);
}

} // verus!
