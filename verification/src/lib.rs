//! A verified tic-tac-toe engine: the board, the rules that decide a game, and the
//! computer opponent, each function with a contract checked by Verus.
//!
//! * [`board`]: the grid, its lines, and the placing of a piece;
//! * [`state`]: whether a game runs, is drawn or is won;
//! * [`computer`]: the computer's choice of a move, at three difficulties;
//! * [`game`]: the course of a game, one key and one turn at a time;
//! * [`display`]: the board and the menus as lines of text;
//! * [`piece`], [`position`], [`config`], [`error`]: the values that the others speak of.
//!
//! The library reads no key and prints no line: the program around it does.

pub mod board;
pub mod computer;
pub mod config;
pub mod display;
pub mod error;
pub mod game;
pub mod piece;
pub mod position;
pub mod state;

pub use crate::board::{valid_move, Board, Grid, Line};
pub use crate::computer::computer_move;
pub use crate::config::{Difficulty, GameConfig, GameMode};
pub use crate::error::GameError;
pub use crate::game::computer_turn;
pub use crate::piece::{BoardPiece, Player};
pub use crate::position::{
    move_current_pos, BoardPosition, Column, Diagonal, Movement, Position, Row,
};
pub use crate::state::{check_win, GameState};
