use vstd::prelude::*;

use crate::error::ChessError;

verus! {

/// The kinds of chess piece, with codes 1 (pawn) to 6 (king); code 0 means no piece.
#[derive(Copy, Clone, Debug, PartialEq, Eq, Structural)]
pub enum ChessPiece {
    Pawn,
    Rook,
    Knight,
    Bishop,
    Queen,
    King,
}

/// The two sides.
#[derive(Copy, Clone, Debug, PartialEq, Eq, Structural)]
pub enum ChessPieceColor {
    Black,
    White,
}

/// The piece that a raw code stands for, for the codes `0..=6`.
pub open spec fn piece_of_code(value: u8) -> Option<ChessPiece> {
    if value == 1 {
        Some(ChessPiece::Pawn)
    } else if value == 2 {
        Some(ChessPiece::Rook)
    } else if value == 3 {
        Some(ChessPiece::Knight)
    } else if value == 4 {
        Some(ChessPiece::Bishop)
    } else if value == 5 {
        Some(ChessPiece::Queen)
    } else if value == 6 {
        Some(ChessPiece::King)
    } else {
        None
    }
}

/// The other side.
pub open spec fn opposite(c: ChessPieceColor) -> ChessPieceColor {
    match c {
        ChessPieceColor::White => ChessPieceColor::Black,
        ChessPieceColor::Black => ChessPieceColor::White,
    }
}

impl ChessPiece {
    /// Decodes a raw piece code: 0 is no piece, 1 to 6 are pawn to king.
    pub fn from(value: u8) -> (r: Result<Option<Self>, ChessError>)
        ensures
            value <= 6 ==> r == Ok::<Option<Self>, ChessError>(piece_of_code(value)),
            value > 6 ==> r == Err::<Option<Self>, ChessError>(ChessError::InvalidPieceCode),
    {
        match value {
            0 => Ok(None),
            1 => Ok(Some(ChessPiece::Pawn)),
            2 => Ok(Some(ChessPiece::Rook)),
            3 => Ok(Some(ChessPiece::Knight)),
            4 => Ok(Some(ChessPiece::Bishop)),
            5 => Ok(Some(ChessPiece::Queen)),
            6 => Ok(Some(ChessPiece::King)),
            _ => Err(ChessError::InvalidPieceCode),
        }
    }
}

impl ChessPieceColor {
    /// The other side.
    pub fn opposite(&self) -> (r: ChessPieceColor)
        ensures
            r == opposite(*self),
    {
        match self {
            ChessPieceColor::White => ChessPieceColor::Black,
            ChessPieceColor::Black => ChessPieceColor::White,
        }
    }
}

/// Whether two optional colors are the same (both absent, or both the same side).
pub fn same_color(a: Option<ChessPieceColor>, b: Option<ChessPieceColor>) -> (r: bool)
    ensures
        r == (a == b),
{
    match (a, b) {
        (None, None) => true,
        (Some(ChessPieceColor::White), Some(ChessPieceColor::White)) => true,
        (Some(ChessPieceColor::Black), Some(ChessPieceColor::Black)) => true,
        _ => false,
    }
}

} // verus!
