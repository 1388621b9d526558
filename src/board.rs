use vstd::prelude::*;

use crate::error::ChessError;
use crate::math::V2;
use crate::moves::{classify, is_legal, ChessMove};
use crate::pieces::{opposite, piece_of_code, ChessPiece, ChessPieceColor};

verus! {

/// What occupies one square: a piece together with its color, or nothing, and
/// whether the occupant has been moved.
#[derive(Copy, Clone, Debug, PartialEq, Eq)]
pub struct ChessTile {
    occupant: Option<(ChessPiece, ChessPieceColor)>,
    has_moved: bool,
}

/// The number of plies a game may last.
pub const TURN_LIMIT: u8 = 50;

/// The board: 64 tiles indexed by `x + 8 * y`, the side that sits on the high
/// ranks, the number of plies taken, and the moves taken so far.
#[derive(Copy, Clone, Debug, PartialEq, Eq)]
pub struct ChessBoard {
    turn: u8,
    tiles: [ChessTile; 64],
    moves: [ChessMove; 50],
    player_color: ChessPieceColor,
}

impl ChessTile {
    /// The piece on the tile, if any.
    pub closed spec fn spec_piece(self) -> Option<ChessPiece> {
        match self.occupant {
            Some(o) => Some(o.0),
            None => None,
        }
    }

    /// The color of the piece on the tile; none exactly when there is no piece.
    pub closed spec fn spec_color(self) -> Option<ChessPieceColor> {
        match self.occupant {
            Some(o) => Some(o.1),
            None => None,
        }
    }

    /// The occupant has been relocated at least once.
    pub closed spec fn spec_has_moved(self) -> bool {
        self.has_moved
    }

    /// The tile holds nothing and has no moved flag.
    pub open spec fn is_blank(self) -> bool {
        self.spec_piece() is None && self.spec_color() is None && !self.spec_has_moved()
    }

    /// A tile holding `piece` in `color`, not yet moved; with no piece the
    /// color is ignored and the tile is empty.
    pub fn new(piece: Option<ChessPiece>, color: Option<ChessPieceColor>) -> (r: Result<
        Self,
        ChessError,
    >)
        ensures
            piece is Some && color is None ==> r == Err::<Self, ChessError>(
                ChessError::InvalidTile,
            ),
            piece is None ==> (r matches Ok(t) && t.is_blank()),
            piece is Some && color is Some ==> (r matches Ok(t) && t.spec_piece() == piece
                && t.spec_color() == color && !t.spec_has_moved()),
    {
        match piece {
            Some(p) => match color {
                Some(c) => Ok(ChessTile { occupant: Some((p, c)), has_moved: false }),
                None => Err(ChessError::InvalidTile),
            },
            None => Ok(ChessTile { occupant: None, has_moved: false }),
        }
    }

    pub fn has_moved(&self) -> (r: bool)
        ensures
            r == self.spec_has_moved(),
    {
        self.has_moved
    }

    /// The same tile with its moved flag set.
    pub fn moved(&self) -> (r: Self)
        ensures
            r.spec_piece() == self.spec_piece(),
            r.spec_color() == self.spec_color(),
            r.spec_has_moved(),
    {
        ChessTile { occupant: self.occupant, has_moved: true }
    }

    pub fn piece(&self) -> (r: Option<ChessPiece>)
        ensures
            r == self.spec_piece(),
    {
        match self.occupant {
            Some(o) => Some(o.0),
            None => None,
        }
    }

    pub fn color(&self) -> (r: Option<ChessPieceColor>)
        ensures
            r == self.spec_color(),
    {
        match self.occupant {
            Some(o) => Some(o.1),
            None => None,
        }
    }

    /// The tile that entry `index` of a layout gives, where `colors` is
    /// (player, opponent).
    pub fn from_layout(index: usize, value: &u8, colors: (ChessPieceColor, ChessPieceColor)) -> (r:
        ChessTile)
        requires
            index < 64,
            *value <= 6,
        ensures
            r.is_layout_tile(index as int, *value, colors),
    {
        let color = if index < 16 {
            Some(colors.1)
        } else if index >= 48 {
            Some(colors.0)
        } else {
            None
        };
        if color.is_none() {
            return ChessTile { occupant: None, has_moved: false };
        }
        match ChessPiece::from(*value) {
            Ok(piece) => match ChessTile::new(piece, color) {
                Ok(t) => t,
                Err(_) => ChessTile { occupant: None, has_moved: false },
            },
            Err(_) => ChessTile { occupant: None, has_moved: false },
        }
    }

    /// What entry `index` of a layout with code `value` places: the piece of that
    /// code on ranks 0, 1, 6 and 7, in `colors.1` (the opponent) on ranks 0 and 1
    /// and in `colors.0` (the player) on ranks 6 and 7; nothing on ranks 2 to 5.
    pub open spec fn is_layout_tile(
        self,
        index: int,
        value: u8,
        colors: (ChessPieceColor, ChessPieceColor),
    ) -> bool {
        let piece = if 16 <= index < 48 {
            None
        } else {
            piece_of_code(value)
        };
        let color = if piece is None {
            None
        } else if index < 16 {
            Some(colors.1)
        } else {
            Some(colors.0)
        };
        self.spec_piece() == piece && self.spec_color() == color && !self.spec_has_moved()
    }
}

/// The letter that stands for a piece kind in a board dump.
pub open spec fn piece_letter(p: ChessPiece) -> char {
    match p {
        ChessPiece::Pawn => 'p',
        ChessPiece::Rook => 'r',
        ChessPiece::Knight => 'k',
        ChessPiece::Bishop => 'b',
        ChessPiece::Queen => 'q',
        ChessPiece::King => 'K',
    }
}

/// The letter that stands for a color in a board dump.
pub open spec fn color_letter(c: ChessPieceColor) -> char {
    match c {
        ChessPieceColor::Black => 'B',
        ChessPieceColor::White => 'W',
    }
}

impl ChessTile {
    /// The two characters that show this tile in a board dump: color then
    /// piece, or `__` for an empty square.
    pub fn symbol(&self) -> (r: (char, char))
        ensures
            self.spec_piece() is None ==> r == ('_', '_'),
            self.spec_piece() is Some ==> r == (
                color_letter(self.spec_color()->0),
                piece_letter(self.spec_piece()->0),
            ),
    {
        match self.occupant {
            None => ('_', '_'),
            Some((p, c)) => {
                let piece = match p {
                    ChessPiece::Pawn => 'p',
                    ChessPiece::Rook => 'r',
                    ChessPiece::Knight => 'k',
                    ChessPiece::Bishop => 'b',
                    ChessPiece::Queen => 'q',
                    ChessPiece::King => 'K',
                };
                let color = match c {
                    ChessPieceColor::Black => 'B',
                    ChessPieceColor::White => 'W',
                };
                (color, piece)
            },
        }
    }
}

/// Every tile has a color exactly when it has a piece.
pub proof fn lemma_tile_color_iff_piece(t: ChessTile)
    ensures
        t.spec_color() is Some <==> t.spec_piece() is Some,
{
}

/// The standard starting layout, by piece code, rank 0 first.
pub open spec fn standard_layout() -> Seq<u8> {
    seq![
        2, 3, 4, 5, 6, 4, 3, 2,
        1, 1, 1, 1, 1, 1, 1, 1,
        0, 0, 0, 0, 0, 0, 0, 0,
        0, 0, 0, 0, 0, 0, 0, 0,
        0, 0, 0, 0, 0, 0, 0, 0,
        0, 0, 0, 0, 0, 0, 0, 0,
        1, 1, 1, 1, 1, 1, 1, 1,
        2, 3, 4, 5, 6, 4, 3, 2,
    ]
}

fn standard_layout_codes() -> (r: [u8; 64])
    ensures
        r@ == standard_layout(),
{
    let r: [u8; 64] = [
        2, 3, 4, 5, 6, 4, 3, 2,
        1, 1, 1, 1, 1, 1, 1, 1,
        0, 0, 0, 0, 0, 0, 0, 0,
        0, 0, 0, 0, 0, 0, 0, 0,
        0, 0, 0, 0, 0, 0, 0, 0,
        0, 0, 0, 0, 0, 0, 0, 0,
        1, 1, 1, 1, 1, 1, 1, 1,
        2, 3, 4, 5, 6, 4, 3, 2,
    ];
    assert(r@ =~= standard_layout());
    r
}

impl ChessBoard {
    /// The invariant: at most `TURN_LIMIT` plies have been taken.
    pub closed spec fn wf(self) -> bool {
        self.turn <= TURN_LIMIT
    }

    /// The tile on square `c`.
    pub closed spec fn spec_tile(self, c: V2) -> ChessTile {
        self.tiles@[c.index()]
    }

    /// The number of plies taken.
    pub closed spec fn turn_count(self) -> nat {
        self.turn as nat
    }

    /// The moves taken, oldest first.
    pub closed spec fn history(self) -> Seq<ChessMove> {
        self.moves@.subrange(0, self.turn as int)
    }

    /// The side whose pieces start on ranks 6 and 7 and whose pawns advance
    /// toward rank 0.
    pub closed spec fn spec_player_color(self) -> ChessPieceColor {
        self.player_color
    }

    /// A fresh board: the tiles are those that `layout` gives (see
    /// `ChessTile::is_layout_tile`), no ply has been taken.
    pub open spec fn is_fresh_board(
        self,
        player_color: ChessPieceColor,
        layout: Seq<u8>,
    ) -> bool {
        &&& self.wf()
        &&& self.turn_count() == 0
        &&& self.history() == Seq::<ChessMove>::empty()
        &&& self.spec_player_color() == player_color
        &&& forall|c: V2|
            c.valid() ==> (#[trigger] self.spec_tile(c)).is_layout_tile(
                c.index(),
                layout[c.index()],
                (player_color, opposite(player_color)),
            )
    }

    /// A board laid out from `layout` (piece codes `0..=6`, rank 0 first), with
    /// the player's pieces on ranks 6 and 7 and the opponent's on ranks 0 and 1.
    pub fn from_layout(player_color: ChessPieceColor, layout: [u8; 64]) -> (r: Self)
        requires
            forall|i: int| 0 <= i < 64 ==> layout@[i] <= 6,
        ensures
            r.is_fresh_board(player_color, layout@),
    {
        let colors = (player_color, player_color.opposite());
        let blank = ChessTile { occupant: None, has_moved: false };
        let mut tiles: [ChessTile; 64] = [blank; 64];
        let mut i: usize = 0;
        while i < 64
            invariant
                0 <= i <= 64,
                forall|j: int| 0 <= j < 64 ==> layout@[j] <= 6,
                colors == (player_color, opposite(player_color)),
                forall|j: int|
                    0 <= j < i ==> #[trigger] tiles@[j].is_layout_tile(j, layout@[j], colors),
            decreases 64 - i,
        {
            tiles[i] = ChessTile::from_layout(i, &layout[i], colors);
            i = i + 1;
        }
        let r = ChessBoard {
            turn: 0,
            tiles,
            moves: [ChessMove::raw(&V2 { x: 0, y: 0 }, &V2 { x: 0, y: 0 }, 0); 50],
            player_color,
        };
        assert(r.history() =~= Seq::<ChessMove>::empty());
        assert forall|c: V2| c.valid() implies (#[trigger] r.spec_tile(c)).is_layout_tile(
            c.index(),
            layout@[c.index()],
            (player_color, opposite(player_color)),
        ) by {
            assert(0 <= c.index() < 64);
        }
        r
    }

    /// A board with the standard starting layout.
    pub fn new(player_color: ChessPieceColor) -> (r: Self)
        ensures
            r.is_fresh_board(player_color, standard_layout()),
    {
        let layout = standard_layout_codes();
        Self::from_layout(player_color, layout)
    }

    pub fn player_color(&self) -> (r: ChessPieceColor)
        ensures
            r == self.spec_player_color(),
    {
        self.player_color
    }

    /// Empties square `src`.
    pub fn clear(&mut self, src: &V2)
        requires
            src.valid(),
        ensures
            final(self).spec_tile(*src).is_blank(),
            forall|c: V2|
                c.valid() && c != *src ==> #[trigger] final(self).spec_tile(c) == old(
                    self,
                ).spec_tile(c),
            final(self).turn_count() == old(self).turn_count(),
            final(self).history() == old(self).history(),
            final(self).spec_player_color() == old(self).spec_player_color(),
            final(self).wf() == old(self).wf(),
    {
        let i = (src.x + 8 * src.y) as usize;
        self.tiles[i] = ChessTile { occupant: None, has_moved: false };
        assert forall|c: V2| c.valid() && c != *src implies #[trigger] self.spec_tile(c) == old(
            self,
        ).spec_tile(c) by {
            assert(c.index() != src.index());
        }
    }

    /// Puts `tile` on square `src`.
    pub fn place(&mut self, src: &V2, tile: ChessTile)
        requires
            src.valid(),
        ensures
            final(self).spec_tile(*src) == tile,
            forall|c: V2|
                c.valid() && c != *src ==> #[trigger] final(self).spec_tile(c) == old(
                    self,
                ).spec_tile(c),
            final(self).turn_count() == old(self).turn_count(),
            final(self).history() == old(self).history(),
            final(self).spec_player_color() == old(self).spec_player_color(),
            final(self).wf() == old(self).wf(),
    {
        let i = (src.x + 8 * src.y) as usize;
        self.tiles[i] = tile;
        assert forall|c: V2| c.valid() && c != *src implies #[trigger] self.spec_tile(c) == old(
            self,
        ).spec_tile(c) by {
            assert(c.index() != src.index());
        }
    }

    /// The most recent move, or none before the first.
    pub fn last_turn(&self) -> (r: Option<&ChessMove>)
        requires
            self.wf(),
        ensures
            self.history().len() == 0 ==> r is None,
            self.history().len() > 0 ==> (r matches Some(m) && *m == self.history().last()),
    {
        if self.turn == 0 {
            None
        } else {
            Some(&self.moves[(self.turn - 1) as usize])
        }
    }

    /// The tile on square `src`.
    pub fn tile(&self, src: &V2) -> (r: ChessTile)
        requires
            src.valid(),
        ensures
            r == self.spec_tile(*src),
    {
        self.tiles[(src.x + 8 * src.y) as usize]
    }

    /// The tiles on `src` and on `dst`.
    pub fn tile_pair(&self, src: &V2, dst: &V2) -> (r: (ChessTile, ChessTile))
        requires
            src.valid(),
            dst.valid(),
        ensures
            r == (self.spec_tile(*src), self.spec_tile(*dst)),
    {
        (self.tile(src), self.tile(dst))
    }
}

/// What `take_turn(src, dst)` returns on `board`: `GameOver` once the ply limit
/// is reached, else `IllegalMove` when the move breaks the rules, else success.
pub open spec fn turn_outcome(board: ChessBoard, src: V2, dst: V2) -> Result<(), ChessError> {
    if board.turn_count() >= TURN_LIMIT {
        Err(ChessError::GameOver)
    } else if !is_legal(board, src, dst) {
        Err(ChessError::IllegalMove)
    } else {
        Ok(())
    }
}

/// `after` is `before` with the move from `src` to `dst` applied: the source
/// tile, marked as moved, stands on `dst`, `src` is empty, every other square
/// is as it was, and the classified move is appended to the history.
pub open spec fn applied_turn(before: ChessBoard, after: ChessBoard, src: V2, dst: V2) -> bool {
    &&& after.wf()
    &&& after.spec_tile(dst).spec_piece() == before.spec_tile(src).spec_piece()
    &&& after.spec_tile(dst).spec_color() == before.spec_tile(src).spec_color()
    &&& after.spec_tile(dst).spec_has_moved()
    &&& after.spec_tile(src).is_blank()
    &&& forall|c: V2|
        c.valid() && c != src && c != dst ==> #[trigger] after.spec_tile(c) == before.spec_tile(c)
    &&& after.turn_count() == before.turn_count() + 1
    &&& after.history() == before.history().push(
        ChessMove { src, dst, ext: classify(before, src, dst) },
    )
    &&& after.spec_player_color() == before.spec_player_color()
}

impl ChessBoard {
    /// Plays the move from `src` to `dst` when the game is not over and the move
    /// is legal; otherwise the board is left exactly as it was.
    pub fn take_turn(&mut self, src: &V2, dst: &V2) -> (r: Result<(), ChessError>)
        requires
            old(self).wf(),
            src.valid(),
            dst.valid(),
        ensures
            r == turn_outcome(*old(self), *src, *dst),
            r is Err ==> *final(self) == *old(self),
            r is Ok ==> applied_turn(*old(self), *final(self), *src, *dst),
            final(self).wf(),
    {
        if self.turn >= TURN_LIMIT {
            return Err(ChessError::GameOver);
        }
        match ChessMove::new(src, dst, *self) {
            Ok(movement) => {
                let ghost before = *self;
                let tile = self.tile(src).moved();
                self.place(dst, tile);
                let ghost placed = *self;
                self.clear(src);
                let ghost cleared = *self;
                self.moves[self.turn as usize] = movement;
                self.turn = self.turn + 1;
                assert(self.history() =~= before.history().push(movement));
                assert(*src != *dst);
                assert(self.spec_tile(*dst) == cleared.spec_tile(*dst));
                assert forall|c: V2| c.valid() && c != *src && c != *dst implies #[trigger] self.spec_tile(c)
                    == before.spec_tile(c) by {
                    assert(cleared.spec_tile(c) == placed.spec_tile(c));
                    assert(placed.spec_tile(c) == before.spec_tile(c));
                }
                Ok(())
            },
            Err(e) => Err(e),
        }
    }
}

/// After a successful turn the destination holds the source's piece and color,
/// marked as moved, and the source square is empty.
pub proof fn lemma_turn_relocates_piece(before: ChessBoard, after: ChessBoard, src: V2, dst: V2)
    requires
        before.wf(),
        src.valid(),
        dst.valid(),
        turn_outcome(before, src, dst) is Ok,
        applied_turn(before, after, src, dst),
    ensures
        after.spec_tile(dst).spec_piece() == before.spec_tile(src).spec_piece(),
        after.spec_tile(dst).spec_color() == before.spec_tile(src).spec_color(),
        after.spec_tile(dst).spec_has_moved(),
        after.spec_tile(src).spec_piece() is None,
        after.spec_tile(src).spec_color() is None,
{
}

/// A move from a square to itself always fails, whatever the board.
pub proof fn lemma_null_move_fails(board: ChessBoard, src: V2)
    requires
        board.wf(),
        src.valid(),
    ensures
        turn_outcome(board, src, src) is Err,
{
}

/// A move onto a square holding a piece of the mover's own color always fails.
pub proof fn lemma_own_color_destination_fails(board: ChessBoard, src: V2, dst: V2)
    requires
        board.wf(),
        src.valid(),
        dst.valid(),
        board.spec_tile(dst).spec_color() is Some,
        board.spec_tile(dst).spec_color() == board.spec_tile(src).spec_color(),
    ensures
        turn_outcome(board, src, dst) is Err,
{
}

/// Each successful turn in a run of them adds one ply to the count.
proof fn lemma_turn_count_along_run(boards: Seq<ChessBoard>, srcs: Seq<V2>, dsts: Seq<V2>, k: int)
    requires
        0 <= k < boards.len(),
        boards[0].turn_count() == 0,
        forall|i: int|
            0 <= i < boards.len() - 1 ==> #[trigger] applied_turn(
                boards[i],
                boards[i + 1],
                srcs[i],
                dsts[i],
            ),
    ensures
        boards[k].turn_count() == k,
    decreases k,
{
    if k > 0 {
        lemma_turn_count_along_run(boards, srcs, dsts, k - 1);
        assert(applied_turn(boards[k - 1], boards[k - 1 + 1], srcs[k - 1], dsts[k - 1]));
    }
}

/// From a fresh board, after `TURN_LIMIT` successful turns every further turn
/// fails with `GameOver`, whether or not the move would be legal.
pub proof fn lemma_game_ends_after_limit(
    boards: Seq<ChessBoard>,
    srcs: Seq<V2>,
    dsts: Seq<V2>,
    src: V2,
    dst: V2,
)
    requires
        boards.len() == TURN_LIMIT + 1,
        boards[0].turn_count() == 0,
        forall|i: int|
            0 <= i < TURN_LIMIT ==> #[trigger] applied_turn(
                boards[i],
                boards[i + 1],
                srcs[i],
                dsts[i],
            ),
    ensures
        turn_outcome(boards[TURN_LIMIT as int], src, dst) == Err::<(), ChessError>(
            ChessError::GameOver,
        ),
{
    lemma_turn_count_along_run(boards, srcs, dsts, TURN_LIMIT as int);
}

} // verus!
