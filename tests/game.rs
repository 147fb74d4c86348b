use std::collections::BTreeSet;

use tictactoe::board::Cell;
use tictactoe::game::{GameState, GameStatus};
use tictactoe::geometry::{get_point_by_cell, MoveError};

fn cells(g: &GameState) -> Vec<Cell> {
    (0..9).map(|i| g.board().cell(i)).collect()
}

fn ai_on(g: &mut GameState, cell: usize) {
    let k = g.board().free_cells().iter().position(|&c| c == cell).unwrap();
    g.ai_move(k);
}

/// Plays the human on `humans[i]` and the opponent on `ais[i]` in turn.
fn replay(humans: &[usize], ais: &[usize]) -> GameState {
    let mut g = GameState::new();
    for i in 0..humans.len() {
        assert!(g.human_move(humans[i]));
        if i < ais.len() {
            ai_on(&mut g, ais[i]);
        }
    }
    g
}

#[test]
fn center_click_gets_one_answer_from_all_eight_cells() {
    let mut seen = BTreeSet::new();
    for _ in 0..300 {
        let mut g = GameState::new();
        assert!(g.play_cell(4));
        let c = cells(&g);
        assert_eq!(c[4], Cell::Human);
        let ai: Vec<usize> = (0..9).filter(|&i| c[i] == Cell::Ai).collect();
        assert_eq!(ai.len(), 1);
        assert_eq!((0..9).filter(|&i| c[i] == Cell::Empty).count(), 7);
        assert_eq!(g.status(), GameStatus::Running);
        assert_eq!(g.board().free_count(), 7);
        seen.insert(ai[0]);
    }
    assert_eq!(seen, [0, 1, 2, 3, 5, 6, 7, 8].into_iter().collect());
}

#[test]
fn completing_top_row_wins_before_opponent_moves() {
    let mut g = replay(&[0, 1], &[3, 4]);
    assert_eq!(
        cells(&g),
        vec![
            Cell::Human, Cell::Human, Cell::Empty,
            Cell::Ai, Cell::Ai, Cell::Empty,
            Cell::Empty, Cell::Empty, Cell::Empty,
        ]
    );
    assert!(g.play_cell(2));
    assert_eq!(g.status(), GameStatus::Won);
    let c = cells(&g);
    assert_eq!(c[2], Cell::Human);
    assert_eq!((0..9).filter(|&i| c[i] == Cell::Ai).count(), 2);
    assert_eq!(g.end_text(), "You won");
}

#[test]
fn clicking_taken_cell_changes_nothing() {
    let mut g = replay(&[0], &[3]);
    let before = cells(&g);
    assert!(!g.play_cell(0));
    assert!(!g.play_cell(3));
    assert_eq!(cells(&g), before);
    assert_eq!(g.status(), GameStatus::Running);
    let (x, y) = get_point_by_cell(3);
    assert_eq!(g.on_pointer_down(true, x as i64 + 5, y as i64 + 5), Ok(()));
    assert_eq!(cells(&g), before);
}

#[test]
fn full_board_without_line_is_draw_and_final() {
    let mut g = replay(&[0, 2, 3, 7, 8], &[1, 4, 5, 6]);
    assert_eq!(g.status(), GameStatus::Draw);
    assert!(g.board().is_full());
    assert_eq!(g.end_text(), "Draw!");
    let before = cells(&g);
    for i in 0..9 {
        assert!(!g.play_cell(i));
    }
    assert_eq!(g.on_pointer_down(true, 10, 10), Ok(()));
    assert_eq!(cells(&g), before);
    assert_eq!(g.status(), GameStatus::Draw);
}

#[test]
fn opponent_line_loses() {
    let g = replay(&[0, 8, 2], &[3, 4, 5]);
    assert_eq!(g.status(), GameStatus::Lost);
    assert_eq!(g.end_text(), "You lost");
}

#[test]
fn finished_game_ignores_clicks() {
    let mut g = replay(&[0, 8, 2], &[3, 4, 5]);
    let before = cells(&g);
    assert!(!g.human_move(1));
    assert_eq!(g.on_pointer_down(true, 200, 300), Ok(()));
    assert_eq!(g.on_pointer_down(true, -5, 300), Ok(()));
    assert_eq!(cells(&g), before);
    assert_eq!(g.status(), GameStatus::Lost);
}

#[test]
fn pointer_down_maps_pixel_and_ignores_other_buttons() {
    let mut g = GameState::new();
    assert_eq!(g.on_pointer_down(false, 130, 5), Ok(()));
    assert_eq!(g.board().free_count(), 9);
    assert_eq!(g.on_pointer_down(true, 400, 5), Err(MoveError::OutOfBounds));
    assert_eq!(g.on_pointer_down(true, 5, -1), Err(MoveError::OutOfBounds));
    assert_eq!(g.board().free_count(), 9);
    assert_eq!(g.on_pointer_down(true, 130, 5), Ok(()));
    assert_eq!(g.board().cell(1), Cell::Human);
    assert_eq!(g.board().free_count(), 7);
}

#[test]
fn counts_add_up_through_a_game() {
    let mut g = GameState::new();
    let mut cell = 0;
    while g.status() == GameStatus::Running {
        while !g.board().is_empty(cell) {
            cell += 1;
        }
        g.play_cell(cell);
        let c = cells(&g);
        let empty = c.iter().filter(|&&x| x == Cell::Empty).count();
        let human = c.iter().filter(|&&x| x == Cell::Human).count();
        let ai = c.iter().filter(|&&x| x == Cell::Ai).count();
        assert_eq!(empty + human + ai, 9);
        assert_eq!(g.board().free_cells().len(), empty);
    }
    assert_ne!(g.status(), GameStatus::Running);
}

#[test]
fn new_game_runs_on_empty_board() {
    let g = GameState::new();
    assert_eq!(g.status(), GameStatus::Running);
    assert!(cells(&g).iter().all(|&c| c == Cell::Empty));
}
