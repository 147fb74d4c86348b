//! Tic-tac-toe: a human against a random opponent on a 3x3 board.
//!
//! `geometry` maps board cells to pixel positions and back, `board` holds the
//! grid and its free cells, and `game` runs the turns and decides the outcome.
pub mod board;
pub mod game;
pub mod geometry;
