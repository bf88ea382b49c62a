use casey_chess::board::Board;
use casey_chess::chess_move::Move;
use casey_chess::game::Game;
use casey_chess::perft::{depth_check, perft};
use casey_chess::piece_type::PieceType;

#[test]
fn every_generated_move_is_accepted() {
    let board = Board::from_fen("r3k2r/p1ppqpb1/bn2pnp1/3PN3/1p2P3/2N2Q1p/PPPBBPPP/R3K2R w KQkq - 0 1").unwrap();
    let moves = board.generate_legal_moves();
    assert_eq!(moves.len(), 48);
    for m in &moves {
        let mut copy = board.duplicate();
        assert!(copy.move_piece(*m).is_ok());
        assert!(board.is_legal_move(m));
    }
}

#[test]
fn promotions_are_expanded() {
    let board = Board::from_fen("4k3/1P6/8/8/8/8/8/4K3 w - - 0 1").unwrap();
    let moves = board.generate_legal_moves();
    let promos: Vec<&Move> = moves.iter().filter(|m| m.piece_type == PieceType::Pawn).collect();
    assert_eq!(promos.len(), 4);
    assert_eq!(moves.len(), 9);
}

#[test]
fn castles_are_generated() {
    let board = Board::from_fen("4k3/8/8/8/8/8/8/R3K2R w KQ - 0 1").unwrap();
    let moves = board.generate_legal_moves();
    assert!(moves.contains(&Move::new(4, 0, 6, 0, PieceType::King, None)));
    assert!(moves.contains(&Move::new(4, 0, 2, 0, PieceType::King, None)));
}

#[test]
fn checkmate_has_no_moves() {
    let board = Board::from_fen("rnb1kbnr/pppp1ppp/8/4p3/6Pq/5P2/PPPPP2P/RNBQKBNR w KQkq - 1 3").unwrap();
    assert!(board.king_in_check());
    assert_eq!(board.generate_legal_moves().len(), 0);
    let mut game = Game::from_fen("rnb1kbnr/pppp1ppp/8/4p3/6Pq/5P2/PPPPP2P/RNBQKBNR w KQkq - 1 3").unwrap();
    assert_eq!(game.engine_move(), None);
}

#[test]
fn perft_depth_zero_and_kiwipete_one() {
    assert_eq!(perft(0, Board::starting_position()), 1);
    assert_eq!(depth_check(1, Board::starting_position()), 20);
    let board = Board::from_fen("r3k2r/p1ppqpb1/bn2pnp1/3PN3/1p2P3/2N2Q1p/PPPBBPPP/R3K2R w KQkq - 0 1").unwrap();
    assert_eq!(perft(1, board), 48);
}

#[test]
fn evaluate_move_scores_capture() {
    let board = Board::from_fen("4k3/8/8/3q4/4P3/8/8/4K3 w - - 0 1").unwrap();
    assert_eq!(board.basic_evaluate(), -800);
    assert_eq!(board.evaluate_move(Move::new(4, 3, 3, 4, PieceType::Pawn, None)), Ok(100));
    assert!(board.evaluate_move(Move::new(4, 3, 4, 5, PieceType::Pawn, None)).is_err());
}

#[test]
fn engine_takes_material() {
    let mut game = Game::from_fen("4k3/8/8/3q4/4P3/8/8/4K3 w - - 0 1").unwrap();
    let m = game.engine_move().unwrap();
    assert_eq!(m, Move::new(4, 3, 3, 4, PieceType::Pawn, None));
    assert_eq!(game.move_history_white.len(), 1);
    assert_eq!(game.board.basic_evaluate(), 100);
    let mut black = Game::from_fen("4k3/8/8/3q4/4P3/8/8/4K3 b - - 0 1").unwrap();
    let m = black.engine_move().unwrap();
    assert_eq!(m, Move::new(3, 4, 4, 3, PieceType::Queen, None));
    assert_eq!(black.move_history_black.len(), 1);
}

#[test]
fn game_records_moves_by_side() {
    let mut game = Game::new();
    game.make_move(Move::new(4, 1, 4, 3, PieceType::Pawn, None)).unwrap();
    game.make_move(Move::new(4, 6, 4, 4, PieceType::Pawn, None)).unwrap();
    assert!(game.make_move(Move::new(4, 3, 4, 4, PieceType::Pawn, None)).is_err());
    assert_eq!(game.move_history_white.len(), 1);
    assert_eq!(game.move_history_black.len(), 1);
}

#[test]
fn perft_known_counts() {
    let kiwipete = Board::from_fen("r3k2r/p1ppqpb1/bn2pnp1/3PN3/1p2P3/2N2Q1p/PPPBBPPP/R3K2R w KQkq - 0 1").unwrap();
    assert_eq!(perft(2, kiwipete), 2039);
    let endgame = Board::from_fen("8/2p5/3p4/KP5r/1R3p1k/8/4P1P1/8 w - - 0 1").unwrap();
    assert_eq!(perft(1, endgame.duplicate()), 14);
    assert_eq!(perft(2, endgame.duplicate()), 191);
    assert_eq!(perft(3, endgame), 2812);
    let promotions = Board::from_fen("r3k2r/Pppp1ppp/1b3nbN/nP6/BBP1P3/q4N2/Pp1P2PP/R2Q1RK1 w kq - 0 1").unwrap();
    assert_eq!(perft(1, promotions.duplicate()), 6);
    assert_eq!(perft(2, promotions), 264);
}
