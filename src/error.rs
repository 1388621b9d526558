use vstd::prelude::*;

verus! {

/// The ways an operation of the engine can be refused.
#[derive(Copy, Clone, Debug, PartialEq, Eq, Structural)]
pub enum ChessError {
    /// A tile was given a piece but no color.
    InvalidTile,
    /// A raw piece code outside `0..=6` was decoded.
    InvalidPieceCode,
    /// The proposed move is not legal on the current board.
    IllegalMove,
    /// The ply ceiling has been reached; no further move is accepted.
    GameOver,
}

} // verus!
