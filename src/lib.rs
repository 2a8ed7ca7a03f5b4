//! Planning of build orders: ordered, annotated sequences of actions drawn
//! from a fixed catalog of a game (for instance the moves of chess).

pub mod build_order;
pub mod chess;
pub mod game;

pub use build_order::{BuildOrder, BuildOrderStep};
pub use chess::ChessGame;
pub use game::{Game, GameItem, Resource};
