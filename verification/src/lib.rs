//! A rules engine for English draughts: the board, the moves that the side
//! to play may make, and the transition that applying one of them causes.

pub mod board;
pub mod position;
pub mod game;
pub mod laws;
