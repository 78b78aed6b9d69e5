//! A terminal Snake game: the board rules, the snake's motion and the
//! per-tick decisions, with their contracts.
pub mod position;
pub mod snake;
pub mod game;
