use chess::{
    ChessBoard, ChessError, ChessMove, ChessMoveExt, ChessPiece, ChessPieceColor, ChessTile, V2,
};

fn sq(x: u16, y: u16) -> V2 {
    V2 { x, y }
}

#[test]
fn piece_codes_decode() {
    assert_eq!(ChessPiece::from(0), Ok(None));
    assert_eq!(ChessPiece::from(1), Ok(Some(ChessPiece::Pawn)));
    assert_eq!(ChessPiece::from(3), Ok(Some(ChessPiece::Knight)));
    assert_eq!(ChessPiece::from(6), Ok(Some(ChessPiece::King)));
    assert_eq!(ChessPiece::from(7), Err(ChessError::InvalidPieceCode));
    assert_eq!(ChessPiece::from(255), Err(ChessError::InvalidPieceCode));
}

#[test]
fn color_opposite() {
    assert_eq!(ChessPieceColor::White.opposite(), ChessPieceColor::Black);
    assert_eq!(ChessPieceColor::Black.opposite(), ChessPieceColor::White);
}

#[test]
fn tile_without_color_is_invalid() {
    assert_eq!(ChessTile::new(Some(ChessPiece::Rook), None), Err(ChessError::InvalidTile));
}

#[test]
fn tile_without_piece_ignores_color() {
    let tile = ChessTile::new(None, Some(ChessPieceColor::White)).expect("empty tile");
    assert_eq!(tile.piece(), None);
    assert_eq!(tile.color(), None);
    assert!(!tile.has_moved());
}

#[test]
fn tile_color_present_iff_piece_present() {
    let pieces = [
        None,
        Some(ChessPiece::Pawn),
        Some(ChessPiece::Queen),
    ];
    let colors = [None, Some(ChessPieceColor::Black), Some(ChessPieceColor::White)];
    for p in pieces {
        for c in colors {
            if let Ok(t) = ChessTile::new(p, c) {
                assert_eq!(t.color().is_some(), t.piece().is_some());
                let m = t.moved();
                assert_eq!(m.color().is_some(), m.piece().is_some());
            }
        }
    }
}

#[test]
fn tile_moved_sets_flag_and_keeps_occupant() {
    let tile = ChessTile::new(Some(ChessPiece::Bishop), Some(ChessPieceColor::Black)).expect("tile");
    assert!(!tile.has_moved());
    let m = tile.moved();
    assert!(m.has_moved());
    assert_eq!(m.piece(), Some(ChessPiece::Bishop));
    assert_eq!(m.color(), Some(ChessPieceColor::Black));
    assert!(m.moved().has_moved());
}

#[test]
fn tile_symbols() {
    let tile = ChessTile::new(Some(ChessPiece::King), Some(ChessPieceColor::White)).expect("tile");
    assert_eq!(tile.symbol(), ('W', 'K'));
    let tile = ChessTile::new(Some(ChessPiece::Knight), Some(ChessPieceColor::Black)).expect("tile");
    assert_eq!(tile.symbol(), ('B', 'k'));
    let empty = ChessTile::new(None, None).expect("tile");
    assert_eq!(empty.symbol(), ('_', '_'));
}

#[test]
fn tile_from_layout_entries() {
    let colors = (ChessPieceColor::White, ChessPieceColor::Black);
    let low = ChessTile::from_layout(3, &5, colors);
    assert_eq!(low.piece(), Some(ChessPiece::Queen));
    assert_eq!(low.color(), Some(ChessPieceColor::Black));
    let high = ChessTile::from_layout(60, &6, colors);
    assert_eq!(high.piece(), Some(ChessPiece::King));
    assert_eq!(high.color(), Some(ChessPieceColor::White));
    // the middle ranks stay empty whatever the layout holds there
    let middle = ChessTile::from_layout(30, &2, colors);
    assert_eq!(middle.piece(), None);
    assert_eq!(middle.color(), None);
    let blank = ChessTile::from_layout(10, &0, colors);
    assert_eq!(blank.piece(), None);
    assert_eq!(blank.color(), None);
}

#[test]
fn coordinates_are_bounds_checked() {
    assert!(V2::in_bounds(0, 0));
    assert!(V2::in_bounds(7, 7));
    assert!(!V2::in_bounds(8, 0));
    assert!(!V2::in_bounds(0, -1));
    assert_eq!(V2::from_u16(7, 3), Some(sq(7, 3)));
    assert_eq!(V2::from_u16(8, 3), None);
    assert_eq!(V2::from_i8(2, 5), Some(sq(2, 5)));
    assert_eq!(V2::from_i8(-1, 5), None);
    assert_eq!(V2::get_offset(&sq(3, 3), 2, -1), Some(sq(5, 2)));
    assert_eq!(V2::get_offset(&sq(0, 0), -1, 0), None);
    assert_eq!(V2::get_offset(&sq(7, 7), 0, 1), None);
    assert_eq!(V2::get_offset(&sq(7, 7), -7, -7), Some(sq(0, 0)));
    assert_eq!(V2::get_offset(&sq(0, 0), 127, 127), None);
}

#[test]
fn move_ext_codes_decode() {
    assert_eq!(ChessMoveExt::from(0), ChessMoveExt::Quiet);
    assert_eq!(ChessMoveExt::from(1), ChessMoveExt::DoublePawnPush);
    assert_eq!(ChessMoveExt::from(2), ChessMoveExt::KingCastle);
    assert_eq!(ChessMoveExt::from(3), ChessMoveExt::QueenCastle);
    assert_eq!(ChessMoveExt::from(4), ChessMoveExt::Captures);
    assert_eq!(ChessMoveExt::from(5), ChessMoveExt::EpCapture);
    assert_eq!(ChessMoveExt::from(6), ChessMoveExt::Quiet);
}

#[test]
fn move_round_trip_every_classification() {
    let exts = [
        ChessMoveExt::Quiet,
        ChessMoveExt::DoublePawnPush,
        ChessMoveExt::KingCastle,
        ChessMoveExt::QueenCastle,
        ChessMoveExt::Captures,
        ChessMoveExt::EpCapture,
    ];
    for e in exts {
        let src = sq(7, 0);
        let dst = sq(2, 6);
        let m = ChessMove::raw(&src, &dst, e as u16);
        assert_eq!(m.src(), src);
        assert_eq!(m.dst(), dst);
        assert_eq!(m.ext(), e);
    }
}

#[test]
fn standard_layout_kings() {
    let board = ChessBoard::new(ChessPieceColor::White);
    let white_king = board.tile(&sq(4, 7));
    assert_eq!(white_king.piece(), Some(ChessPiece::King));
    assert_eq!(white_king.color(), Some(ChessPieceColor::White));
    let black_king = board.tile(&sq(4, 0));
    assert_eq!(black_king.piece(), Some(ChessPiece::King));
    assert_eq!(black_king.color(), Some(ChessPieceColor::Black));
    assert_eq!(board.player_color(), ChessPieceColor::White);
    assert!(board.last_turn().is_none());
}

#[test]
fn scenario_pawn_single_step() {
    let mut board = ChessBoard::new(ChessPieceColor::White);
    assert_eq!(board.take_turn(&sq(0, 1), &sq(0, 2)), Ok(()));
    let last = board.last_turn().expect("a move");
    assert_eq!(last.ext(), ChessMoveExt::Quiet);
    assert_eq!(last.src(), sq(0, 1));
    assert_eq!(last.dst(), sq(0, 2));
    assert_eq!(board.tile(&sq(0, 1)).piece(), None);
    assert_eq!(board.tile(&sq(0, 1)).color(), None);
}

#[test]
fn scenario_pawn_double_step() {
    let mut board = ChessBoard::new(ChessPieceColor::Black);
    assert_eq!(board.take_turn(&sq(0, 1), &sq(0, 3)), Ok(()));
    assert_eq!(board.last_turn().expect("a move").ext(), ChessMoveExt::DoublePawnPush);
}

#[test]
fn scenario_knight_shapes() {
    let mut board = ChessBoard::new(ChessPieceColor::Black);
    assert_eq!(board.take_turn(&sq(1, 0), &sq(2, 2)), Ok(()));
    let mut board = ChessBoard::new(ChessPieceColor::White);
    assert_eq!(board.take_turn(&sq(1, 0), &sq(2, 1)), Err(ChessError::IllegalMove));
}

#[test]
fn fifty_plies_end_the_game() {
    let mut board = ChessBoard::new(ChessPieceColor::White);
    let a = sq(1, 0);
    let b = sq(2, 2);
    for i in 0..50 {
        let (from, to) = if i % 2 == 0 { (a, b) } else { (b, a) };
        assert_eq!(board.take_turn(&from, &to), Ok(()));
    }
    // the knight is back on (1, 0), and (1, 0) -> (2, 2) is a legal shape
    let before = board;
    assert_eq!(board.take_turn(&a, &b), Err(ChessError::GameOver));
    assert!(board == before);
    assert_eq!(board.take_turn(&a, &a), Err(ChessError::GameOver));
}

#[test]
fn move_to_same_square_fails() {
    let mut board = ChessBoard::new(ChessPieceColor::White);
    for (x, y) in [(0, 0), (1, 0), (4, 1), (3, 4), (4, 7)] {
        let before = board;
        assert_eq!(board.take_turn(&sq(x, y), &sq(x, y)), Err(ChessError::IllegalMove));
        assert!(board == before);
    }
}

#[test]
fn move_onto_own_color_fails() {
    let mut board = ChessBoard::new(ChessPieceColor::White);
    let before = board;
    // rook onto its own pawn, queen onto its own king, knight onto its own pawn
    assert_eq!(board.take_turn(&sq(0, 7), &sq(0, 6)), Err(ChessError::IllegalMove));
    assert_eq!(board.take_turn(&sq(3, 7), &sq(4, 7)), Err(ChessError::IllegalMove));
    assert_eq!(board.take_turn(&sq(1, 7), &sq(3, 6)), Err(ChessError::IllegalMove));
    assert!(board == before);
}

#[test]
fn successful_turn_relocates_piece() {
    let mut board = ChessBoard::new(ChessPieceColor::White);
    let src = sq(6, 7);
    let dst = sq(5, 5);
    let moving = board.tile(&src);
    assert!(!moving.has_moved());
    assert_eq!(board.take_turn(&src, &dst), Ok(()));
    let landed = board.tile(&dst);
    assert_eq!(landed.piece(), moving.piece());
    assert_eq!(landed.color(), moving.color());
    assert!(landed.has_moved());
    assert_eq!(board.tile(&src).piece(), None);
    assert_eq!(board.tile(&src).color(), None);
}

#[test]
fn queries_leave_board_unchanged() {
    let mut board = ChessBoard::new(ChessPieceColor::Black);
    assert_eq!(board.take_turn(&sq(6, 0), &sq(5, 2)), Ok(()));
    let before = board;
    let _ = board.tile(&sq(5, 2));
    let _ = board.tile_pair(&sq(5, 2), &sq(6, 0));
    let _ = board.tile(&sq(5, 2)).piece();
    let _ = board.tile(&sq(5, 2)).color();
    let _ = board.last_turn();
    let _ = board.player_color();
    assert!(board == before);
}

#[test]
fn tile_pair_reads_both_squares() {
    let board = ChessBoard::new(ChessPieceColor::White);
    let (a, b) = board.tile_pair(&sq(3, 0), &sq(3, 7));
    assert_eq!(a.piece(), Some(ChessPiece::Queen));
    assert_eq!(a.color(), Some(ChessPieceColor::Black));
    assert_eq!(b.piece(), Some(ChessPiece::Queen));
    assert_eq!(b.color(), Some(ChessPieceColor::White));
}

#[test]
fn place_and_clear_touch_one_square() {
    let mut board = ChessBoard::new(ChessPieceColor::White);
    let rook = ChessTile::new(Some(ChessPiece::Rook), Some(ChessPieceColor::White)).expect("tile");
    board.place(&sq(4, 4), rook);
    assert_eq!(board.tile(&sq(4, 4)).piece(), Some(ChessPiece::Rook));
    assert_eq!(board.tile(&sq(4, 3)).piece(), None);
    board.clear(&sq(0, 0));
    assert_eq!(board.tile(&sq(0, 0)).piece(), None);
    assert_eq!(board.tile(&sq(1, 0)).piece(), Some(ChessPiece::Knight));
}

#[test]
fn ray_stops_at_first_capture() {
    // opponent rook on (0, 0) with an open file up to the player's pawn on (0, 6)
    let mut layout = [0u8; 64];
    layout[0] = 2;
    layout[48] = 1;
    layout[56] = 2;
    let board = ChessBoard::from_layout(ChessPieceColor::White, layout);
    let mut b1 = board;
    assert_eq!(b1.take_turn(&sq(0, 0), &sq(0, 7)), Err(ChessError::IllegalMove));
    let mut b2 = board;
    assert_eq!(b2.take_turn(&sq(0, 0), &sq(0, 6)), Ok(()));
    assert_eq!(b2.last_turn().expect("a move").ext(), ChessMoveExt::Captures);
    assert_eq!(b2.tile(&sq(0, 6)).color(), Some(ChessPieceColor::Black));
}

#[test]
fn rook_targets_on_open_board() {
    let mut layout = [0u8; 64];
    layout[0] = 2;
    let board = ChessBoard::from_layout(ChessPieceColor::White, layout);
    let mut targets = chess::math::search_grid_plus(&sq(0, 0), board);
    targets.sort_by_key(|v| (v.x, v.y));
    let mut expected = Vec::new();
    for y in 1..8 {
        expected.push(sq(0, y));
    }
    for x in 1..8 {
        expected.push(sq(x, 0));
    }
    expected.sort_by_key(|v| (v.x, v.y));
    assert_eq!(targets, expected);
}

#[test]
fn blocked_slider_has_no_targets() {
    let board = ChessBoard::new(ChessPieceColor::White);
    assert!(chess::math::search_grid_plus(&sq(0, 0), board).is_empty());
    assert!(chess::math::search_grid_diag(&sq(2, 7), board).is_empty());
    assert!(ChessMove::queen_moves(&sq(3, 7), board).is_empty());
}

#[test]
fn bishop_targets_with_capture() {
    // a player bishop alone on (2, 7)
    let mut layout = [0u8; 64];
    layout[58] = 4;
    let board = ChessBoard::from_layout(ChessPieceColor::White, layout);
    let mut targets = chess::math::search_grid_diag(&sq(2, 7), board);
    targets.sort_by_key(|v| (v.x, v.y));
    let mut expected = vec![sq(1, 6), sq(0, 5), sq(3, 6), sq(4, 5), sq(5, 4), sq(6, 3), sq(7, 2)];
    expected.sort_by_key(|v| (v.x, v.y));
    assert_eq!(targets, expected);
}

#[test]
fn knight_targets_from_corner_file() {
    let board = ChessBoard::new(ChessPieceColor::White);
    assert_eq!(ChessMove::knight_moves(&sq(1, 0), board), vec![sq(0, 2), sq(2, 2)]);
}

#[test]
fn pawn_targets_fresh_and_blocked() {
    let mut board = ChessBoard::new(ChessPieceColor::White);
    assert_eq!(ChessMove::pawn_moves(&sq(0, 6), board), vec![sq(0, 5), sq(0, 4)]);
    assert_eq!(ChessMove::pawn_moves(&sq(3, 1), board), vec![sq(3, 2), sq(3, 3)]);
    // a knight on the square just ahead blocks both steps
    assert_eq!(board.take_turn(&sq(1, 0), &sq(2, 2)), Ok(()));
    assert!(ChessMove::pawn_moves(&sq(2, 1), board).is_empty());
    assert_eq!(board.take_turn(&sq(2, 1), &sq(2, 3)), Err(ChessError::IllegalMove));
}

#[test]
fn pawn_far_square_blocked_keeps_near() {
    let mut board = ChessBoard::new(ChessPieceColor::White);
    assert_eq!(board.take_turn(&sq(1, 0), &sq(2, 2)), Ok(()));
    // an opponent knight on (3, 4) blocks only the far square of the pawn on (3, 6)
    assert_eq!(board.take_turn(&sq(2, 2), &sq(3, 4)), Ok(()));
    assert_eq!(ChessMove::pawn_moves(&sq(3, 6), board), vec![sq(3, 5)]);
}

#[test]
fn moved_pawn_steps_once() {
    let mut board = ChessBoard::new(ChessPieceColor::White);
    assert_eq!(board.take_turn(&sq(4, 6), &sq(4, 5)), Ok(()));
    assert_eq!(ChessMove::pawn_moves(&sq(4, 5), board), vec![sq(4, 4)]);
    assert_eq!(board.take_turn(&sq(4, 5), &sq(4, 3)), Err(ChessError::IllegalMove));
}

#[test]
fn pawn_diagonal_needs_an_enemy() {
    let mut board = ChessBoard::new(ChessPieceColor::Black);
    // empty diagonal: no capture candidate
    assert_eq!(board.take_turn(&sq(0, 1), &sq(1, 2)), Err(ChessError::IllegalMove));
    assert_eq!(board.take_turn(&sq(0, 1), &sq(0, 3)), Ok(()));
    assert_eq!(board.take_turn(&sq(0, 3), &sq(0, 4)), Ok(()));
    assert_eq!(board.take_turn(&sq(0, 4), &sq(0, 5)), Ok(()));
    assert_eq!(ChessMove::pawn_moves(&sq(0, 5), board), vec![sq(1, 6)]);
}

#[test]
fn king_has_no_moves() {
    let board = ChessBoard::new(ChessPieceColor::White);
    assert!(ChessMove::king_moves(&sq(4, 7), board).is_empty());
    assert!(ChessMove::illegal_move(&sq(4, 7), &sq(4, 6), board));
}

#[test]
fn empty_square_cannot_move() {
    let mut board = ChessBoard::new(ChessPieceColor::White);
    assert_eq!(board.take_turn(&sq(3, 3), &sq(3, 4)), Err(ChessError::IllegalMove));
}

#[test]
fn legality_and_classification_directly() {
    let board = ChessBoard::new(ChessPieceColor::White);
    assert!(!ChessMove::illegal_move(&sq(6, 7), &sq(5, 5), board));
    assert!(ChessMove::illegal_move(&sq(6, 7), &sq(6, 5), board));
    assert_eq!(ChessMove::get_ext(&sq(4, 6), &sq(4, 4), board), ChessMoveExt::DoublePawnPush);
    assert_eq!(ChessMove::get_ext(&sq(4, 6), &sq(4, 5), board), ChessMoveExt::Quiet);
    let m = ChessMove::new(&sq(4, 6), &sq(4, 4), board).expect("legal");
    assert_eq!(m.ext(), ChessMoveExt::DoublePawnPush);
    assert!(ChessMove::new(&sq(4, 6), &sq(4, 3), board).is_err());
}

#[test]
fn history_keeps_the_latest_move() {
    let mut board = ChessBoard::new(ChessPieceColor::White);
    assert_eq!(board.take_turn(&sq(1, 7), &sq(2, 5)), Ok(()));
    assert_eq!(board.take_turn(&sq(6, 0), &sq(5, 2)), Ok(()));
    let last = board.last_turn().expect("a move");
    assert_eq!(last.src(), sq(6, 0));
    assert_eq!(last.dst(), sq(5, 2));
    assert_eq!(last.ext(), ChessMoveExt::Quiet);
}
