use vstd::prelude::*;

use crate::board::ChessBoard;
use crate::pieces::{same_color, ChessPieceColor};

verus! {

/// A square of the board: `x` is the file and `y` the rank, each in `0..8` when valid.
#[derive(Copy, Clone, Debug, PartialEq, Eq, Structural)]
pub struct V2 {
    pub x: u16,
    pub y: u16,
}

impl V2 {
    /// Both coordinates lie on the board.
    pub open spec fn valid(self) -> bool {
        self.x < 8 && self.y < 8
    }

    /// The index of this square in a board's 64 tiles.
    pub open spec fn index(self) -> int {
        self.x + 8 * self.y
    }
}

/// The pair `(x, y)` lies on the board.
pub open spec fn on_board(x: int, y: int) -> bool {
    0 <= x < 8 && 0 <= y < 8
}

/// The square `(x, y)` when it lies on the board, else none.
pub open spec fn square_at(x: int, y: int) -> Option<V2> {
    if on_board(x, y) {
        Some(V2 { x: x as u16, y: y as u16 })
    } else {
        None
    }
}

/// The square reached from `origin` by the offset `(dx, dy)`, when it lies on the board.
pub open spec fn offset(origin: V2, dx: int, dy: int) -> Option<V2> {
    square_at(origin.x + dx, origin.y + dy)
}

impl V2 {
    pub fn in_bounds(x: i8, y: i8) -> (r: bool)
        ensures
            r == on_board(x as int, y as int),
    {
        x >= 0 && x < 8 && y >= 0 && y < 8
    }

    pub fn from_u16(x: u16, y: u16) -> (r: Option<Self>)
        ensures
            r == square_at(x as int, y as int),
    {
        if x < 8 && y < 8 {
            Some(V2 { x, y })
        } else {
            None
        }
    }

    pub fn from_i8(x: i8, y: i8) -> (r: Option<Self>)
        ensures
            r == square_at(x as int, y as int),
    {
        if Self::in_bounds(x, y) {
            Some(V2 { x: x as u16, y: y as u16 })
        } else {
            None
        }
    }

    /// The square at `(dx, dy)` from `origin`, or none when it would leave the board.
    pub fn get_offset(origin: &V2, dx: i8, dy: i8) -> (r: Option<Self>)
        ensures
            r == offset(*origin, dx as int, dy as int),
    {
        let x: i32 = origin.x as i32 + dx as i32;
        let y: i32 = origin.y as i32 + dy as i32;
        if 0 <= x && x < 8 && 0 <= y && y < 8 {
            Some(V2 { x: x as u16, y: y as u16 })
        } else {
            None
        }
    }
}

/// The squares that a sliding piece of color `mover` reaches from `p`, stepping
/// by `(dx, dy)` at most `n` times: a square off the board or holding `mover`'s
/// color ends the ray before it; an occupied square of another color is
/// reached and ends the ray; an empty square is reached and the ray goes on.
pub open spec fn ray(
    board: ChessBoard,
    mover: Option<ChessPieceColor>,
    p: V2,
    dx: int,
    dy: int,
    n: nat,
) -> Seq<V2>
    decreases n,
{
    if n == 0 {
        Seq::empty()
    } else {
        match offset(p, dx, dy) {
            None => Seq::empty(),
            Some(q) => {
                let color = board.spec_tile(q).spec_color();
                if color == mover {
                    Seq::empty()
                } else if color is Some {
                    seq![q]
                } else {
                    seq![q] + ray(board, mover, q, dx, dy, (n - 1) as nat)
                }
            },
        }
    }
}

/// How many steps by `(dx, dy)` stay on the board from `p` along one axis.
pub open spec fn axis_room(v: int, d: int) -> int {
    if d > 0 {
        7 - v
    } else if d < 0 {
        v
    } else {
        7
    }
}

/// How many steps by `(dx, dy)` from `p` stay on the board.
pub open spec fn room(p: V2, dx: int, dy: int) -> int {
    let a = axis_room(p.x as int, dx);
    let b = axis_room(p.y as int, dy);
    if a < b {
        a
    } else {
        b
    }
}

/// A walk that may take `n` steps yields the same squares as one that may take
/// `m`, once both allow as many steps as stay on the board.
proof fn lemma_ray_enough_steps(
    board: ChessBoard,
    mover: Option<ChessPieceColor>,
    p: V2,
    dx: int,
    dy: int,
    n: nat,
    m: nat,
)
    requires
        p.valid(),
        -1 <= dx <= 1,
        -1 <= dy <= 1,
        dx != 0 || dy != 0,
        n >= room(p, dx, dy),
        m >= room(p, dx, dy),
    ensures
        ray(board, mover, p, dx, dy, n) == ray(board, mover, p, dx, dy, m),
    decreases n,
{
    if n > 0 && m > 0 {
        if let Some(q) = offset(p, dx, dy) {
            assert(room(q, dx, dy) == room(p, dx, dy) - 1);
            lemma_ray_enough_steps(board, mover, q, dx, dy, (n - 1) as nat, (m - 1) as nat);
        }
    } else {
        assert(room(p, dx, dy) == 0);
        assert(offset(p, dx, dy) is None);
    }
}

/// Seven steps are as good as any more: a ray leaves the board within seven
/// steps, so `ray_from` is the whole ray.
pub proof fn lemma_seven_steps_suffice(
    board: ChessBoard,
    mover: Option<ChessPieceColor>,
    p: V2,
    dx: int,
    dy: int,
    n: nat,
)
    requires
        p.valid(),
        -1 <= dx <= 1,
        -1 <= dy <= 1,
        dx != 0 || dy != 0,
        n >= 7,
    ensures
        ray(board, mover, p, dx, dy, n) == ray(board, mover, p, dx, dy, 7),
{
    lemma_ray_enough_steps(board, mover, p, dx, dy, n, 7);
}

/// The ray from `src` in direction `(dx, dy)` for the piece standing on `src`;
/// seven steps cross the whole board.
pub open spec fn ray_from(board: ChessBoard, src: V2, dx: int, dy: int) -> Seq<V2> {
    ray(board, board.spec_tile(src).spec_color(), src, dx, dy, 7)
}

/// The squares that a rook on `src` reaches: the four orthogonal rays.
pub open spec fn plus_targets(board: ChessBoard, src: V2) -> Seq<V2> {
    ray_from(board, src, -1, 0) + ray_from(board, src, 1, 0) + ray_from(board, src, 0, -1)
        + ray_from(board, src, 0, 1)
}

/// The squares that a bishop on `src` reaches: the four diagonal rays.
pub open spec fn diag_targets(board: ChessBoard, src: V2) -> Seq<V2> {
    ray_from(board, src, -1, -1) + ray_from(board, src, -1, 1) + ray_from(board, src, 1, -1)
        + ray_from(board, src, 1, 1)
}

/// Appends to `moves` the ray from `src` in direction `(dx, dy)` for a piece of
/// color `mover`.
fn push_ray(
    board: &ChessBoard,
    mover: Option<ChessPieceColor>,
    src: &V2,
    dx: i8,
    dy: i8,
    moves: &mut Vec<V2>,
)
    ensures
        final(moves)@ == old(moves)@ + ray(*board, mover, *src, dx as int, dy as int, 7),
{
    let ghost target = old(moves)@ + ray(*board, mover, *src, dx as int, dy as int, 7);
    let mut p: V2 = *src;
    let mut n: u8 = 7;
    assert(moves@ + ray(*board, mover, p, dx as int, dy as int, n as nat) == target);
    while n > 0
        invariant
            moves@ + ray(*board, mover, p, dx as int, dy as int, n as nat) == target,
        decreases n,
    {
        match V2::get_offset(&p, dx, dy) {
            None => {
                n = 0;
            },
            Some(q) => {
                let color = board.tile(&q).color();
                if same_color(color, mover) {
                    n = 0;
                } else if color.is_some() {
                    moves.push(q);
                    n = 0;
                } else {
                    let ghost before = moves@;
                    moves.push(q);
                    assert(moves@ + ray(*board, mover, q, dx as int, dy as int, (n - 1) as nat)
                        =~= before + ray(*board, mover, p, dx as int, dy as int, n as nat));
                    p = q;
                    n = n - 1;
                }
            },
        }
    }
    assert(moves@ =~= target);
}

/// The squares that a rook on `src` may move to (see `plus_targets`).
pub fn search_grid_plus(src: &V2, board: ChessBoard) -> (r: Vec<V2>)
    requires
        src.valid(),
    ensures
        r@ == plus_targets(board, *src),
{
    let mover = board.tile(src).color();
    let mut moves: Vec<V2> = Vec::new();
    push_ray(&board, mover, src, -1, 0, &mut moves);
    assert(moves@ =~= ray_from(board, *src, -1, 0));
    push_ray(&board, mover, src, 1, 0, &mut moves);
    push_ray(&board, mover, src, 0, -1, &mut moves);
    push_ray(&board, mover, src, 0, 1, &mut moves);
    moves
}

/// The squares that a bishop on `src` may move to (see `diag_targets`).
pub fn search_grid_diag(src: &V2, board: ChessBoard) -> (r: Vec<V2>)
    requires
        src.valid(),
    ensures
        r@ == diag_targets(board, *src),
{
    let mover = board.tile(src).color();
    let mut moves: Vec<V2> = Vec::new();
    push_ray(&board, mover, src, -1, -1, &mut moves);
    assert(moves@ =~= ray_from(board, *src, -1, -1));
    push_ray(&board, mover, src, -1, 1, &mut moves);
    push_ray(&board, mover, src, 1, -1, &mut moves);
    push_ray(&board, mover, src, 1, 1, &mut moves);
    moves
}

} // verus!
