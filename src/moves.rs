use vstd::prelude::*;

use crate::board::ChessBoard;
use crate::error::ChessError;
use crate::math::{diag_targets, offset, plus_targets, search_grid_diag, search_grid_plus, V2};
use crate::pieces::{same_color, ChessPiece, ChessPieceColor};

verus! {

/// How an applied move is classified.
#[derive(Copy, Clone, Debug, PartialEq, Eq, Structural)]
pub enum ChessMoveExt {
    Quiet,
    DoublePawnPush,
    KingCastle,
    QueenCastle,
    Captures,
    EpCapture,
}

/// One half-move: where the piece came from, where it went, and how it is classified.
#[derive(Copy, Clone, Debug, PartialEq, Eq, Structural)]
pub struct ChessMove {
    pub src: V2,
    pub dst: V2,
    pub ext: ChessMoveExt,
}

/// The raw code of a classification, `0..=5` in declaration order.
pub open spec fn ext_code(e: ChessMoveExt) -> u16 {
    match e {
        ChessMoveExt::Quiet => 0,
        ChessMoveExt::DoublePawnPush => 1,
        ChessMoveExt::KingCastle => 2,
        ChessMoveExt::QueenCastle => 3,
        ChessMoveExt::Captures => 4,
        ChessMoveExt::EpCapture => 5,
    }
}

/// The classification that a raw code decodes to: each of `0..=5` names its own
/// classification, and any other code decodes to `Quiet`.
pub open spec fn ext_of_code(value: u16) -> ChessMoveExt {
    if value == 1 {
        ChessMoveExt::DoublePawnPush
    } else if value == 2 {
        ChessMoveExt::KingCastle
    } else if value == 3 {
        ChessMoveExt::QueenCastle
    } else if value == 4 {
        ChessMoveExt::Captures
    } else if value == 5 {
        ChessMoveExt::EpCapture
    } else {
        ChessMoveExt::Quiet
    }
}

impl ChessMoveExt {
    /// Decodes a raw classification code (see `ext_of_code`).
    pub fn from(value: u16) -> (r: ChessMoveExt)
        ensures
            r == ext_of_code(value),
    {
        match value {
            1 => ChessMoveExt::DoublePawnPush,
            2 => ChessMoveExt::KingCastle,
            3 => ChessMoveExt::QueenCastle,
            4 => ChessMoveExt::Captures,
            5 => ChessMoveExt::EpCapture,
            _ => ChessMoveExt::Quiet,
        }
    }
}

/// Encoding then decoding a move gives back its source, destination and
/// classification, for every classification.
pub proof fn lemma_move_round_trip(src: V2, dst: V2, e: ChessMoveExt)
    requires
        src.valid(),
        dst.valid(),
    ensures
        ({
            let m = ChessMove { src, dst, ext: ext_of_code(ext_code(e)) };
            m.src == src && m.dst == dst && m.ext == e
        }),
{
}

impl ChessMove {
    /// Builds a move from its parts, the classification given as a raw code.
    pub fn raw(src: &V2, dst: &V2, ext: u16) -> (r: Self)
        ensures
            r == (ChessMove { src: *src, dst: *dst, ext: ext_of_code(ext) }),
    {
        ChessMove { src: *src, dst: *dst, ext: ChessMoveExt::from(ext) }
    }

    pub fn ext(&self) -> (r: ChessMoveExt)
        ensures
            r == self.ext,
    {
        self.ext
    }

    pub fn src(&self) -> (r: V2)
        ensures
            r == self.src,
    {
        self.src
    }

    pub fn dst(&self) -> (r: V2)
        ensures
            r == self.dst,
    {
        self.dst
    }
}

/// `cand`, as a one-square sequence, when it lies on the board and does not hold
/// the color `mover`; else nothing.
pub open spec fn keep_target(
    board: ChessBoard,
    mover: Option<ChessPieceColor>,
    cand: Option<V2>,
) -> Seq<V2> {
    match cand {
        Some(c) => if board.spec_tile(c).spec_color() != mover {
            seq![c]
        } else {
            Seq::empty()
        },
        None => Seq::empty(),
    }
}

/// The squares that a knight on `src` may move to: the eight L-shaped offsets
/// that stay on the board and do not hold the knight's own color.
pub open spec fn knight_targets(board: ChessBoard, src: V2) -> Seq<V2> {
    let m = board.spec_tile(src).spec_color();
    keep_target(board, m, offset(src, -1, 2)) + keep_target(board, m, offset(src, 1, 2))
        + keep_target(board, m, offset(src, -2, 1)) + keep_target(board, m, offset(src, 2, 1))
        + keep_target(board, m, offset(src, -1, -2)) + keep_target(board, m, offset(src, 1, -2))
        + keep_target(board, m, offset(src, -2, -1)) + keep_target(board, m, offset(src, 2, -1))
}

/// The rank step of a pawn on `src`: toward rank 0 for the player's pawns,
/// toward rank 7 for the opponent's.
pub open spec fn pawn_dir(board: ChessBoard, src: V2) -> int {
    if board.spec_tile(src).spec_color() == Some(board.spec_player_color()) {
        -1
    } else {
        1
    }
}

/// The square is on the board and holds a piece.
pub open spec fn occupied(board: ChessBoard, c: V2) -> bool {
    board.spec_tile(c).spec_piece() is Some
}

/// The forward squares of a pawn on `src`: one step ahead when it is empty, and
/// two steps ahead as well when the pawn has not moved and both are empty.
pub open spec fn pawn_forward(board: ChessBoard, src: V2) -> Seq<V2> {
    let dir = pawn_dir(board, src);
    match offset(src, 0, dir) {
        None => Seq::empty(),
        Some(near) => if occupied(board, near) {
            Seq::empty()
        } else if board.spec_tile(src).spec_has_moved() {
            seq![near]
        } else {
            match offset(src, 0, 2 * dir) {
                Some(far) => if occupied(board, far) {
                    seq![near]
                } else {
                    seq![near, far]
                },
                None => seq![near],
            }
        },
    }
}

/// The diagonal square one step ahead and `dx` files over, when it holds a
/// piece of the other color.
pub open spec fn pawn_capture(board: ChessBoard, src: V2, dx: int) -> Seq<V2> {
    match offset(src, dx, pawn_dir(board, src)) {
        Some(d) => {
            let color = board.spec_tile(d).spec_color();
            if color is Some && color != board.spec_tile(src).spec_color() {
                seq![d]
            } else {
                Seq::empty()
            }
        },
        None => Seq::empty(),
    }
}

/// The squares that a pawn on `src` may move to.
pub open spec fn pawn_targets(board: ChessBoard, src: V2) -> Seq<V2> {
    pawn_forward(board, src) + pawn_capture(board, src, -1) + pawn_capture(board, src, 1)
}

/// The squares that the piece on `src` may move to by its movement rule; a king
/// and an empty square have none.
pub open spec fn candidates(board: ChessBoard, src: V2) -> Seq<V2> {
    match board.spec_tile(src).spec_piece() {
        Some(ChessPiece::Pawn) => pawn_targets(board, src),
        Some(ChessPiece::Rook) => plus_targets(board, src),
        Some(ChessPiece::Knight) => knight_targets(board, src),
        Some(ChessPiece::Bishop) => diag_targets(board, src),
        Some(ChessPiece::Queen) => plus_targets(board, src) + diag_targets(board, src),
        Some(ChessPiece::King) => Seq::empty(),
        None => Seq::empty(),
    }
}

/// A move from `src` to `dst` is legal: the squares differ, the destination
/// does not hold the source's color, and it is among the source piece's
/// candidate squares.
pub open spec fn is_legal(board: ChessBoard, src: V2, dst: V2) -> bool {
    &&& src != dst
    &&& board.spec_tile(dst).spec_color() != board.spec_tile(src).spec_color()
    &&& candidates(board, src).contains(dst)
}

/// The classification of a legal move, from the occupancy before it.
pub open spec fn classify(board: ChessBoard, src: V2, dst: V2) -> ChessMoveExt {
    let s = board.spec_tile(src);
    let d = board.spec_tile(dst);
    if d.spec_piece() is Some && d.spec_color() != s.spec_color() {
        ChessMoveExt::Captures
    } else if s.spec_piece() == Some(ChessPiece::Pawn) && (src.y - dst.y == 2 || dst.y - src.y
        == 2) {
        ChessMoveExt::DoublePawnPush
    } else {
        ChessMoveExt::Quiet
    }
}

/// Appends `cand` to `moves` when it lies on the board and does not hold `mover`.
fn push_target(
    board: &ChessBoard,
    mover: Option<ChessPieceColor>,
    cand: Option<V2>,
    moves: &mut Vec<V2>,
)
    requires
        cand matches Some(c) ==> c.valid(),
    ensures
        final(moves)@ == old(moves)@ + keep_target(*board, mover, cand),
{
    match cand {
        Some(c) => {
            if !same_color(board.tile(&c).color(), mover) {
                moves.push(c);
            }
        },
        None => {},
    }
    assert(final(moves)@ =~= old(moves)@ + keep_target(*board, mover, cand));
}

impl ChessMove {
    /// The squares that a pawn on `src` may move to (see `pawn_targets`).
    pub fn pawn_moves(src: &V2, board: ChessBoard) -> (r: Vec<V2>)
        requires
            src.valid(),
        ensures
            r@ == pawn_targets(board, *src),
    {
        let tile = board.tile(src);
        let dir: i8 = if same_color(Some(board.player_color()), tile.color()) {
            -1
        } else {
            1
        };
        let mut moves: Vec<V2> = Vec::new();
        match V2::get_offset(src, 0, dir) {
            None => {},
            Some(near) => {
                if board.tile(&near).piece().is_none() {
                    moves.push(near);
                    if !tile.has_moved() {
                        match V2::get_offset(src, 0, 2 * dir) {
                            Some(far) => {
                                if board.tile(&far).piece().is_none() {
                                    moves.push(far);
                                }
                            },
                            None => {},
                        }
                    }
                }
            },
        }
        assert(moves@ =~= pawn_forward(board, *src));
        let mover = tile.color();
        let left = V2::get_offset(src, -1, dir);
        if let Some(d) = left {
            let color = board.tile(&d).color();
            if color.is_some() && !same_color(color, mover) {
                moves.push(d);
            }
        }
        assert(moves@ =~= pawn_forward(board, *src) + pawn_capture(board, *src, -1));
        let right = V2::get_offset(src, 1, dir);
        if let Some(d) = right {
            let color = board.tile(&d).color();
            if color.is_some() && !same_color(color, mover) {
                moves.push(d);
            }
        }
        assert(moves@ =~= pawn_targets(board, *src));
        moves
    }

    /// The squares that a knight on `src` may move to (see `knight_targets`).
    pub fn knight_moves(src: &V2, board: ChessBoard) -> (r: Vec<V2>)
        requires
            src.valid(),
        ensures
            r@ == knight_targets(board, *src),
    {
        let m = board.tile(src).color();
        let mut moves: Vec<V2> = Vec::new();
        push_target(&board, m, V2::get_offset(src, -1, 2), &mut moves);
        assert(moves@ =~= keep_target(board, m, offset(*src, -1, 2)));
        push_target(&board, m, V2::get_offset(src, 1, 2), &mut moves);
        push_target(&board, m, V2::get_offset(src, -2, 1), &mut moves);
        push_target(&board, m, V2::get_offset(src, 2, 1), &mut moves);
        push_target(&board, m, V2::get_offset(src, -1, -2), &mut moves);
        push_target(&board, m, V2::get_offset(src, 1, -2), &mut moves);
        push_target(&board, m, V2::get_offset(src, -2, -1), &mut moves);
        push_target(&board, m, V2::get_offset(src, 2, -1), &mut moves);
        moves
    }

    /// The squares that a queen on `src` may move to: the rook's and the bishop's.
    pub fn queen_moves(src: &V2, board: ChessBoard) -> (r: Vec<V2>)
        requires
            src.valid(),
        ensures
            r@ == plus_targets(board, *src) + diag_targets(board, *src),
    {
        let mut moves = search_grid_plus(src, board);
        let mut diag = search_grid_diag(src, board);
        moves.append(&mut diag);
        moves
    }

    /// A king has no candidate squares: king moves are not generated.
    pub fn king_moves(src: &V2, board: ChessBoard) -> (r: Vec<V2>)
        ensures
            r@ == Seq::<V2>::empty(),
    {
        Vec::new()
    }

    /// The candidate squares of the piece on `src` (see `candidates`).
    fn valid_moves(src: &V2, board: ChessBoard) -> (r: Vec<V2>)
        requires
            src.valid(),
        ensures
            r@ == candidates(board, *src),
    {
        match board.tile(src).piece() {
            Some(ChessPiece::Pawn) => Self::pawn_moves(src, board),
            Some(ChessPiece::Rook) => search_grid_plus(src, board),
            Some(ChessPiece::Knight) => Self::knight_moves(src, board),
            Some(ChessPiece::Bishop) => search_grid_diag(src, board),
            Some(ChessPiece::Queen) => Self::queen_moves(src, board),
            Some(ChessPiece::King) => Self::king_moves(src, board),
            None => Vec::new(),
        }
    }

    /// Whether moving from `src` to `dst` breaks the rules (see `is_legal`).
    pub fn illegal_move(src: &V2, dst: &V2, board: ChessBoard) -> (r: bool)
        requires
            src.valid(),
            dst.valid(),
        ensures
            r == !is_legal(board, *src, *dst),
    {
        if *src == *dst {
            return true;
        }
        if same_color(board.tile(dst).color(), board.tile(src).color()) {
            return true;
        }
        let valid = Self::valid_moves(src, board);
        let mut i: usize = 0;
        while i < valid.len()
            invariant
                0 <= i <= valid@.len(),
                valid@ == candidates(board, *src),
                *src != *dst,
                board.spec_tile(*dst).spec_color() != board.spec_tile(*src).spec_color(),
                forall|j: int| 0 <= j < i ==> valid@[j] != *dst,
            decreases valid@.len() - i,
        {
            if valid[i] == *dst {
                assert(valid@[i as int] == *dst);
                return false;
            }
            i = i + 1;
        }
        true
    }

    /// The classification of the move from `src` to `dst` (see `classify`).
    pub fn get_ext(src: &V2, dst: &V2, board: ChessBoard) -> (r: ChessMoveExt)
        requires
            src.valid(),
            dst.valid(),
        ensures
            r == classify(board, *src, *dst),
    {
        let tiles = board.tile_pair(src, dst);
        let captured = tiles.1.piece().is_some() && !same_color(tiles.0.color(), tiles.1.color());
        if captured {
            return ChessMoveExt::Captures;
        }
        let is_pawn = match tiles.0.piece() {
            Some(ChessPiece::Pawn) => true,
            _ => false,
        };
        let two_ranks = src.y as i32 - dst.y as i32 == 2 || dst.y as i32 - src.y as i32 == 2;
        if is_pawn && two_ranks {
            ChessMoveExt::DoublePawnPush
        } else {
            ChessMoveExt::Quiet
        }
    }

    /// The move from `src` to `dst`, classified, when it is legal on `board`.
    pub fn new(src: &V2, dst: &V2, board: ChessBoard) -> (r: Result<Self, ChessError>)
        requires
            src.valid(),
            dst.valid(),
        ensures
            is_legal(board, *src, *dst) ==> r == Ok::<Self, ChessError>(
                ChessMove { src: *src, dst: *dst, ext: classify(board, *src, *dst) },
            ),
            !is_legal(board, *src, *dst) ==> r == Err::<Self, ChessError>(
                ChessError::IllegalMove,
            ),
    {
        if Self::illegal_move(src, dst, board) {
            return Err(ChessError::IllegalMove);
        }
        let ext = Self::get_ext(src, dst, board);
        Ok(ChessMove { src: *src, dst: *dst, ext })
    }
}

} // verus!
