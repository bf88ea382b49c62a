use casey_chess::board::Board;
use casey_chess::chess_move::Move;
use casey_chess::color::Color;
use casey_chess::move_error::MoveError;
use casey_chess::move_type::MoveType;
use casey_chess::piece::Piece;
use casey_chess::piece_type::PieceType;

const START: &str = "rnbqkbnr/pppppppp/8/8/8/8/PPPPPPPP/RNBQKBNR w KQkq - 0 1";

fn mv(fx: usize, fy: usize, tx: usize, ty: usize, t: PieceType) -> Move {
    Move::new(fx, fy, tx, ty, t, None)
}

#[test]
fn starting_position_matches_fen() {
    let a = Board::starting_position();
    let b = Board::from_fen(START).unwrap();
    assert_eq!(a.to_fen(), b.to_fen());
    assert_eq!(a.to_fen(), START);
}

#[test]
fn double_push_sets_en_passant_target() {
    let mut board = Board::starting_position();
    board.move_piece(mv(4, 1, 4, 3, PieceType::Pawn)).unwrap();
    assert_eq!(board.get_en_passant(), Some((4, 2)));
    assert_eq!(board.get_halfmove(), 0);
    assert_eq!(*board.get_player_turn(), Color::Black);
    assert_eq!(board.get_move_number(), 1);
}

#[test]
fn en_passant_cleared_by_next_move() {
    let mut board = Board::starting_position();
    board.move_piece(mv(4, 1, 4, 3, PieceType::Pawn)).unwrap();
    board.move_piece(mv(4, 6, 4, 5, PieceType::Pawn)).unwrap();
    assert_eq!(board.get_en_passant(), None);
    assert_eq!(board.get_move_number(), 2);
    board.move_piece(mv(6, 0, 5, 2, PieceType::Knight)).unwrap();
    assert_eq!(board.get_en_passant(), None);
    assert_eq!(board.get_halfmove(), 1);
}

#[test]
fn black_in_check_from_queen() {
    let board = Board::from_fen("rnbqkbnr/ppppp1pp/8/5p1Q/4P3/8/PPPP1PPP/RNB1KBNR b KQkq - 1 2").unwrap();
    assert!(board.king_in_check());
    assert!(!Board::starting_position().king_in_check());
}

#[test]
fn en_passant_capture_removes_passed_pawn() {
    let mut board = Board::starting_position();
    board.algebraic_move("e4").unwrap();
    board.algebraic_move("a6").unwrap();
    board.algebraic_move("e5").unwrap();
    board.algebraic_move("d5").unwrap();
    assert_eq!(board.get_en_passant(), Some((3, 5)));
    board.algebraic_move("exd6").unwrap();
    assert_eq!(board.get_piece(3, 4), None);
    assert_eq!(board.get_piece(3, 5), Some(Piece::new(PieceType::Pawn, Color::White)));
    assert_eq!(board.get_piece(4, 4), None);
    assert_eq!(board.get_halfmove(), 0);
}

#[test]
fn kingside_castle_blocked_by_pieces() {
    let mut f1 = Board::from_fen("4k3/8/8/8/8/8/8/4KB1R w K - 0 1").unwrap();
    assert_eq!(f1.move_piece(mv(4, 0, 6, 0, PieceType::King)), Err(MoveError::IllegalMove));
    let mut g1 = Board::from_fen("4k3/8/8/8/8/8/8/4K1NR w K - 0 1").unwrap();
    assert_eq!(g1.move_piece(mv(4, 0, 6, 0, PieceType::King)), Err(MoveError::IllegalMove));
}

#[test]
fn kingside_castle_through_attack_rejected() {
    for fen in ["4kr2/8/8/8/8/8/8/4K2R w K - 0 1", "4k1r1/8/8/8/8/8/8/4K2R w K - 0 1", "4r1k1/8/8/8/8/8/8/4K2R w K - 0 1"] {
        let mut board = Board::from_fen(fen).unwrap();
        let before = board.to_fen();
        assert_eq!(board.move_piece(mv(4, 0, 6, 0, PieceType::King)), Err(MoveError::IllegalMove));
        assert_eq!(board.to_fen(), before);
    }
}

#[test]
fn kingside_castle_moves_rook() {
    let mut board = Board::from_fen("4k3/8/8/8/8/8/8/4K2R w K - 3 1").unwrap();
    board.move_piece(mv(4, 0, 6, 0, PieceType::King)).unwrap();
    assert_eq!(board.get_piece(6, 0), Some(Piece::new(PieceType::King, Color::White)));
    assert_eq!(board.get_piece(5, 0), Some(Piece::new(PieceType::Rook, Color::White)));
    assert_eq!(board.get_piece(7, 0), None);
    assert_eq!(board.get_king_position(Color::White), (6, 0));
    assert_eq!(board.get_castling_rights(), (false, false, false, false));
    assert_eq!(board.get_halfmove(), 4);
}

#[test]
fn castle_without_right_rejected() {
    let mut board = Board::from_fen("4k3/8/8/8/8/8/8/4K2R w Q - 0 1").unwrap();
    assert_eq!(board.move_piece(mv(4, 0, 6, 0, PieceType::King)), Err(MoveError::IllegalMove));
}

#[test]
fn castling_rights_do_not_return() {
    let mut board = Board::from_fen("r3k2r/8/8/8/8/8/8/R3K2R w KQkq - 0 1").unwrap();
    board.move_piece(mv(4, 0, 4, 1, PieceType::King)).unwrap();
    board.move_piece(mv(0, 7, 0, 6, PieceType::Rook)).unwrap();
    assert_eq!(board.get_castling_rights(), (false, false, true, false));
    board.move_piece(mv(4, 1, 4, 0, PieceType::King)).unwrap();
    board.move_piece(mv(0, 6, 0, 7, PieceType::Rook)).unwrap();
    assert_eq!(board.get_castling_rights(), (false, false, true, false));
}

#[test]
fn rook_captured_on_corner_loses_right() {
    let mut board = Board::from_fen("r3k2r/8/8/8/8/8/8/R3K2R w KQkq - 0 1").unwrap();
    board.move_piece(mv(7, 0, 7, 7, PieceType::Rook)).unwrap();
    assert_eq!(board.get_castling_rights(), (false, true, false, true));
    assert_eq!(board.get_halfmove(), 0);
}

#[test]
fn rejected_moves_change_nothing() {
    let mut board = Board::from_fen("4k3/8/8/8/4r3/8/4B3/4K3 w - - 5 9").unwrap();
    let before = board.to_fen();
    assert_eq!(board.move_piece(mv(4, 1, 3, 2, PieceType::Bishop)), Err(MoveError::KingInCheck));
    assert_eq!(board.to_fen(), before);
    assert_eq!(board.move_piece(mv(2, 2, 3, 3, PieceType::Bishop)), Err(MoveError::NoPieceOnSourceSquare));
    assert_eq!(board.move_piece(mv(4, 1, 4, 1, PieceType::Bishop)), Err(MoveError::MustMovePiece));
    assert_eq!(board.move_piece(mv(4, 3, 4, 2, PieceType::Rook)), Err(MoveError::PieceWrongColor));
    assert_eq!(board.move_piece(mv(4, 1, 4, 3, PieceType::Bishop)), Err(MoveError::IllegalMove));
    assert_eq!(board.move_piece(mv(9, 9, 4, 3, PieceType::Bishop)), Err(MoveError::NoPieceOnSourceSquare));
    assert_eq!(board.move_piece(mv(4, 1, 12, 3, PieceType::Bishop)), Err(MoveError::IllegalMove));
    assert_eq!(board.to_fen(), before);
}

#[test]
fn blocked_and_own_capture_errors() {
    let mut board = Board::from_fen("4k3/8/8/8/8/4n3/4P3/1N2K3 w - - 0 1").unwrap();
    assert_eq!(board.move_piece(mv(4, 1, 4, 2, PieceType::Pawn)), Err(MoveError::MoveBlocked));
    assert_eq!(board.move_piece(mv(4, 1, 4, 3, PieceType::Pawn)), Err(MoveError::MoveBlocked));
    assert_eq!(board.move_piece(mv(1, 0, 3, 1, PieceType::Knight)), Ok(()));
    let mut own = Board::from_fen("4k3/8/8/8/8/8/3P4/1N2K3 w - - 0 1").unwrap();
    assert_eq!(own.move_piece(mv(1, 0, 3, 1, PieceType::Knight)), Err(MoveError::CannotCaptureOwnPiece));
    assert_eq!(own.move_piece(mv(4, 0, 3, 1, PieceType::King)), Err(MoveError::CannotCaptureOwnPiece));
}

#[test]
fn king_may_not_step_into_attack() {
    let mut board = Board::from_fen("4k3/8/8/8/8/8/r7/4K3 w - - 0 1").unwrap();
    assert_eq!(board.move_piece(mv(4, 0, 4, 1, PieceType::King)), Err(MoveError::KingInCheck));
    assert_eq!(board.move_piece(mv(4, 0, 5, 0, PieceType::King)), Ok(()));
    assert_eq!(board.get_king_position(Color::White), (5, 0));
}

#[test]
fn promotion_defaults_to_queen() {
    let mut board = Board::from_fen("4k3/1P6/8/8/8/8/8/4K3 w - - 0 1").unwrap();
    let mut other = Board::from_fen("4k3/1P6/8/8/8/8/8/4K3 w - - 0 1").unwrap();
    board.move_piece(mv(1, 6, 1, 7, PieceType::Pawn)).unwrap();
    assert_eq!(board.get_piece(1, 7), Some(Piece::new(PieceType::Queen, Color::White)));
    other.move_piece(Move::new(1, 6, 1, 7, PieceType::Pawn, Some(PieceType::Knight))).unwrap();
    assert_eq!(other.get_piece(1, 7), Some(Piece::new(PieceType::Knight, Color::White)));
}

#[test]
fn fullmove_advances_after_black() {
    let mut board = Board::starting_position();
    board.move_piece(mv(6, 0, 5, 2, PieceType::Knight)).unwrap();
    assert_eq!(board.get_move_number(), 1);
    board.move_piece(mv(6, 7, 5, 5, PieceType::Knight)).unwrap();
    assert_eq!(board.get_move_number(), 2);
    assert_eq!(board.get_halfmove(), 2);
    assert_eq!(*board.get_player_turn(), Color::White);
}

#[test]
fn check_move_classifies_geometry() {
    let pawn = Piece::new(PieceType::Pawn, Color::White);
    assert_eq!(pawn.check_move(4, 1, 4, 2), MoveType::Pawn1);
    assert_eq!(pawn.check_move(4, 1, 4, 3), MoveType::Pawn2);
    assert_eq!(pawn.check_move(4, 2, 4, 4), MoveType::Illegal);
    assert_eq!(pawn.check_move(4, 1, 5, 2), MoveType::PawnCapture);
    let black_pawn = Piece::new(PieceType::Pawn, Color::Black);
    assert_eq!(black_pawn.check_move(4, 6, 4, 4), MoveType::Pawn2);
    assert_eq!(black_pawn.check_move(4, 6, 4, 7), MoveType::Illegal);
    let knight = Piece::new(PieceType::Knight, Color::White);
    assert_eq!(knight.check_move(1, 0, 2, 2), MoveType::Knight);
    assert_eq!(knight.check_move(1, 0, 1, 2), MoveType::Illegal);
    let king = Piece::new(PieceType::King, Color::Black);
    assert_eq!(king.check_move(4, 7, 6, 7), MoveType::KingCastleKingSide);
    assert_eq!(king.check_move(4, 7, 2, 7), MoveType::KingCastleQueenSide);
    assert_eq!(king.check_move(4, 0, 6, 0), MoveType::Illegal);
    assert_eq!(Piece::new(PieceType::Queen, Color::White).check_move(0, 0, 7, 7), MoveType::Queen);
    assert_eq!(Piece::new(PieceType::Bishop, Color::White).check_move(0, 0, 7, 6), MoveType::Illegal);
    assert_eq!(Piece::new(PieceType::Rook, Color::White).check_move(0, 0, 0, 9), MoveType::Illegal);
}

#[test]
fn piece_letters() {
    assert_eq!(Piece::new(PieceType::Knight, Color::White).get_piece_char(), 'N');
    assert_eq!(Piece::new(PieceType::Queen, Color::Black).get_piece_char(), 'q');
    assert_eq!(Piece::from_fen('k'), Some(Piece::new(PieceType::King, Color::Black)));
    assert_eq!(Piece::from_fen('B'), Some(Piece::new(PieceType::Bishop, Color::White)));
    assert_eq!(Piece::from_fen('x'), None);
    assert_eq!(PieceType::Queen.to_centipawns(), 900);
    assert_eq!(Piece::new(PieceType::Rook, Color::Black).to_centipawns(), 500);
}

#[test]
fn material_changes_by_piece_values() {
    let full = Board::from_fen("4k3/8/8/8/8/8/8/4K3 w - - 0 1").unwrap();
    assert_eq!(full.basic_evaluate(), 0);
    let with_queen = Board::from_fen("4k3/8/8/8/8/8/8/3QK3 w - - 0 1").unwrap();
    assert_eq!(with_queen.basic_evaluate(), 900);
    let with_black_rook = Board::from_fen("r3k3/8/8/8/8/8/8/3QK3 w - - 0 1").unwrap();
    assert_eq!(with_black_rook.basic_evaluate(), 400);
    let minors = Board::from_fen("4k3/8/8/8/8/8/8/1NB1K2p w - - 0 1").unwrap();
    assert_eq!(minors.basic_evaluate(), 500);
}

#[test]
fn error_messages() {
    assert_eq!(MoveError::KingInCheck.message(), "King is in check");
    assert_eq!(MoveError::MoveBlocked.message(), "Move is blocked");
    assert_eq!(Color::White.opposite(), Color::Black);
    assert!(Color::White.is_white());
    assert_eq!(Color::Black.name(), "Black");
}
