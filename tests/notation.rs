use casey_chess::board::Board;
use casey_chess::chess_move::Move;
use casey_chess::move_error::MoveError;
use casey_chess::piece_type::PieceType;

#[test]
fn fen_round_trip_is_stable() {
    for fen in [
        "rnbqkbnr/pppppppp/8/8/8/8/PPPPPPPP/RNBQKBNR w KQkq - 0 1",
        "r1bqkbnr/pppp1ppp/2n5/4p3/4P3/2N5/PPPP1PPP/R1BQKBNR w KQkq - 2 3",
        "rnbqkbnr/ppp1pppp/8/3pP3/8/8/PPPP1PPP/RNBQKBNR w Kq d6 0 3",
        "8/8/8/8/8/8/8/8 b - - 99 120",
    ] {
        let first = Board::from_fen(fen).unwrap();
        let text = first.to_fen();
        assert_eq!(text, fen);
        let second = Board::from_fen(&text).unwrap();
        assert_eq!(second.to_fen(), text);
        assert_eq!(first.get_squares(), second.get_squares());
        assert_eq!(first.get_king_position(casey_chess::color::Color::White), second.get_king_position(casey_chess::color::Color::White));
    }
}

#[test]
fn fen_optional_counters_default() {
    let board = Board::from_fen("4k3/8/8/8/8/8/8/4K3 b -  -").unwrap();
    assert_eq!(board.get_halfmove(), 0);
    assert_eq!(board.get_move_number(), 1);
    assert_eq!(board.to_fen(), "4k3/8/8/8/8/8/8/4K3 b - - 0 1");
}

#[test]
fn fen_rejects_bad_text() {
    assert!(Board::from_fen("").is_none());
    assert!(Board::from_fen("8/8/8/8 w -").is_none());
    assert!(Board::from_fen("8/8/8/8/8/8/8/7X w - - 0 1").is_none());
    assert!(Board::from_fen("9/8/8/8/8/8/8/8 w - - 0 1").is_none());
    assert!(Board::from_fen("8/8/8/8/8/8/8/8/8 w - - 0 1").is_none());
    assert!(Board::from_fen("ppppppppp/8/8/8/8/8/8/8 w - - 0 1").is_none());
    assert!(Board::from_fen("8/8/8/8/8/8/8/8 x - - 0 1").is_none());
    assert!(Board::from_fen("8/8/8/8/8/8/8/8 w - z9 0 1").is_none());
    assert!(Board::from_fen("8/8/8/8/8/8/8/8 w - - a 1").is_none());
    assert!(Board::from_fen("8/8/8/8/8/8/8/8 w - - 0 99999999999").is_none());
}

#[test]
fn algebraic_piece_and_castle_moves() {
    let mut board = Board::starting_position();
    board.algebraic_move("e4").unwrap();
    board.algebraic_move("e5").unwrap();
    board.algebraic_move("Nf3").unwrap();
    board.algebraic_move("Nc6").unwrap();
    board.algebraic_move("Bc4").unwrap();
    board.algebraic_move("Bc5").unwrap();
    board.algebraic_move(" O-O ").unwrap();
    assert_eq!(board.to_fen(), "r1bqk1nr/pppp1ppp/2n5/2b1p3/2B1P3/5N2/PPPP1PPP/RNBQ1RK1 b kq - 5 4");
}

#[test]
fn algebraic_rejects_unknown_and_ambiguous() {
    let mut board = Board::from_fen("4k3/8/8/8/8/8/8/R3K2R w - - 0 1").unwrap();
    let before = board.to_fen();
    assert_eq!(board.algebraic_move("Rd1"), Err(MoveError::IllegalMove));
    assert_eq!(board.algebraic_move("Zz9"), Err(MoveError::IllegalMove));
    assert_eq!(board.algebraic_move("x"), Err(MoveError::IllegalMove));
    assert_eq!(board.algebraic_move("Rxq"), Err(MoveError::IllegalMove));
    assert_eq!(board.to_fen(), before);
    assert_eq!(board.parse_algebraic("Ra7"), Ok(Move::new(0, 0, 0, 6, PieceType::Rook, None)));
}

#[test]
fn algebraic_pawn_forms() {
    let board = Board::starting_position();
    assert_eq!(board.parse_algebraic("e4"), Ok(Move::new(4, 1, 4, 3, PieceType::Pawn, None)));
    assert_eq!(board.parse_algebraic("e3"), Ok(Move::new(4, 1, 4, 2, PieceType::Pawn, None)));
    assert_eq!(board.parse_algebraic("dxe3Q"), Ok(Move::new(3, 1, 4, 2, PieceType::Pawn, Some(PieceType::Queen))));
    assert_eq!(board.parse_algebraic("e1"), Err(MoveError::IllegalMove));
    assert_eq!(board.parse_algebraic("O-O"), Ok(Move::new(4, 0, 6, 0, PieceType::King, None)));
    assert_eq!(board.parse_algebraic("O-O-O"), Ok(Move::new(4, 0, 2, 0, PieceType::King, None)));
}
