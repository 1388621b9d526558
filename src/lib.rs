//! A chess rules engine: board state, per-piece move generation, legality,
//! move classification and turn application, with every operation verified.

pub mod board;
pub mod error;
pub mod math;
pub mod moves;
pub mod pieces;

pub use board::{ChessBoard, ChessTile};
pub use error::ChessError;
pub use math::V2;

pub use pieces::{ChessPiece, ChessPieceColor};
pub use moves::{ChessMove, ChessMoveExt};
