//! A tic-tac-toe rules engine: board, moves, turn order and win detection.
//!
//! [`game_model::GameBoard`] is the game; its contracts are stated over the model in
//! [`model`], and [`laws`] proves what holds of every game.

mod chance;
pub mod coordinate;
pub mod game_model;
pub mod laws;
pub mod model;
pub mod pieces;
pub mod text;
