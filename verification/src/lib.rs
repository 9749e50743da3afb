//! A two-player game of tic-tac-toe: the board, its rules, and the text that
//! a front end shows and reads.
//!
//! Every function states what it returns or changes over the definitions in
//! [`model`]; the laws that follow from those statements are proved in
//! [`laws`].

pub mod board;
pub mod error;
pub mod game;
pub mod input;
pub mod laws;
pub mod model;
pub mod render;
pub mod space;

pub use board::Board;
pub use error::{GameError, InputFault};
pub use input::convert_user_input;
pub use model::{BoardView, Status, BOARD_HEIGHT, BOARD_WIDTH};
pub use space::{space_to_str, Player, Space};
