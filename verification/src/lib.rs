//! Tic-tac-toe for two players, verified: the pieces, the 3x3 board with its moves and its
//! verdict, the numbering of the cells, and the course of a game that is played line by
//! line at a console.

pub mod board;
pub mod console;
pub mod coordinates;
pub mod game;
pub mod history;
pub mod input;
pub mod piece;
