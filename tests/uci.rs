use casey_chess::chess_move::Move;
use casey_chess::piece_type::PieceType;
use casey_chess::uci::{EngineMsg, HandlerTx, UciEngineToGui, UciGuiToEngine};
use casey_chess::uci_engine::{HandlerAction, UciCoordinator, UciEngine, UciEngineState, UciHandlerState};

#[test]
fn gui_commands_parse() {
    assert_eq!(UciGuiToEngine::from_string("uci"), Some(UciGuiToEngine::Uci));
    assert_eq!(UciGuiToEngine::from_string("  isready \n"), Some(UciGuiToEngine::IsReady));
    assert_eq!(
        UciGuiToEngine::from_string("position startpos  moves e2e4 e7e5"),
        Some(UciGuiToEngine::Position("startpos moves e2e4 e7e5".to_string()))
    );
    assert_eq!(UciGuiToEngine::from_string("go"), Some(UciGuiToEngine::Go(String::new())));
    assert_eq!(UciGuiToEngine::from_string("debug on"), Some(UciGuiToEngine::Debug("on".to_string())));
    assert_eq!(UciGuiToEngine::from_string("stop"), Some(UciGuiToEngine::Stop));
    assert_eq!(UciGuiToEngine::from_string("quit"), Some(UciGuiToEngine::Quit));
    assert_eq!(UciGuiToEngine::from_string("ucinewgame"), Some(UciGuiToEngine::UciNewGame));
    assert_eq!(UciGuiToEngine::from_string("ponderhit"), Some(UciGuiToEngine::PonderHit));
    assert_eq!(
        UciGuiToEngine::from_string("setoption name Hash value 16"),
        Some(UciGuiToEngine::SetOption("name Hash value 16".to_string()))
    );
    assert_eq!(UciGuiToEngine::from_string("hello"), None);
    assert_eq!(UciGuiToEngine::from_string("   "), None);
}

#[test]
fn engine_replies_format() {
    assert_eq!(UciEngineToGui::id_name("Casey").to_line(), "id name Casey");
    assert_eq!(UciEngineToGui::id_author("JKDow").to_line(), "id author JKDow");
    assert_eq!(UciEngineToGui::uci_ok().to_line(), "uciok");
    assert_eq!(UciEngineToGui::ready_ok().to_line(), "readyok");
    assert_eq!(UciEngineToGui::best_move("e2e4").to_line(), "bestmove e2e4");
    assert_eq!(UciEngineToGui::info("depth 1").to_line(), "info depth 1");
    assert_eq!(UciEngineToGui::option("name x").to_line(), "option name x");
    assert_eq!(UciEngineToGui::registration("later").to_line(), "registration later");
    assert_eq!(UciEngineToGui::copy_protection("ok").to_line(), "copyprotection ok");
}

#[test]
fn move_text_forms() {
    let m = Move::new(4, 6, 4, 7, PieceType::Pawn, Some(PieceType::Queen));
    assert_eq!(m.extended_algebraic(), "e7e8q");
    assert_eq!(m.to_text(), "e7e8Q");
    let n = Move::new(6, 0, 5, 2, PieceType::Knight, None);
    assert_eq!(n.extended_algebraic(), "g1f3");
    assert_eq!(n.to_text(), "Ng1f3");
}

#[test]
fn engine_sets_up_positions() {
    let mut engine = UciEngine::new();
    assert_eq!(engine.handle_starting_position("moves e2e4 e7e5 g1f3"), EngineMsg::PositionSet);
    assert_eq!(engine.game.board.to_fen(), "rnbqkbnr/pppp1ppp/8/4p3/4P3/5N2/PPPP1PPP/RNBQKB1R b KQkq - 1 2");
    assert_eq!(engine.handle_starting_position(""), EngineMsg::PositionSet);
    assert_eq!(engine.game.board.to_fen(), "rnbqkbnr/pppppppp/8/8/8/8/PPPPPPPP/RNBQKBNR w KQkq - 0 1");
    assert_eq!(engine.handle_new_fen("4k3/1P6/8/8/8/8/8/4K3 w - - 0 1"), EngineMsg::PositionSet);
    assert_eq!(engine.handle_make_move("b7b8n"), Ok(()));
    assert_eq!(engine.game.board.to_fen(), "1N2k3/8/8/8/8/8/8/4K3 b - - 0 1");
    assert!(engine.handle_make_move("zz").is_err());
}

#[test]
fn engine_search_reports_a_move() {
    let mut engine = UciEngine::new();
    engine.handle_new_fen("4k3/8/8/3q4/4P3/8/8/4K3 w - - 0 1");
    assert_eq!(engine.handle_start_search(), EngineMsg::FinalBestMove("e4d5".to_string()));
    assert_eq!(engine.state, UciEngineState::Idle);
    assert_eq!(engine.handle_stop_search(), None);
    engine.handle_new_fen("rnb1kbnr/pppp1ppp/8/4p3/6Pq/5P2/PPPPP2P/RNBQKBNR w KQkq - 1 3");
    assert_eq!(engine.handle(HandlerTx::StartSearch), Some(EngineMsg::FinalBestMove("0000".to_string())));
}

#[test]
fn coordinator_state_machine() {
    let mut c = UciCoordinator::new("Casey".to_string(), "JKDow".to_string());
    assert!(c.on_input(UciGuiToEngine::Go(String::new())).is_empty());
    assert!(c.on_input(UciGuiToEngine::Stop).is_empty());
    let hello = c.on_input(UciGuiToEngine::Uci);
    assert_eq!(hello.len(), 3);
    assert_eq!(hello[2], HandlerAction::ToGui(UciEngineToGui::UciOk));
    assert_eq!(c.state, UciHandlerState::Ready);
    assert!(c.on_input(UciGuiToEngine::Uci).is_empty());
    let set = c.on_input(UciGuiToEngine::Position("startpos moves e2e4".to_string()));
    assert_eq!(set, vec![HandlerAction::ToEngine(HandlerTx::StartingPosition("moves e2e4".to_string()))]);
    assert_eq!(c.state, UciHandlerState::WaitMsg);
    assert!(c.on_engine(EngineMsg::PositionSet).is_empty());
    assert_eq!(c.state, UciHandlerState::Idle);
    let append = c.on_input(UciGuiToEngine::Position("startpos moves e2e4 e7e5".to_string()));
    assert_eq!(append, vec![HandlerAction::ToEngine(HandlerTx::MakeMove("e7e5".to_string()))]);
    let go = c.on_input(UciGuiToEngine::Go("depth 1".to_string()));
    assert_eq!(go, vec![HandlerAction::ToEngine(HandlerTx::StartSearch)]);
    assert_eq!(c.state, UciHandlerState::Thinking);
    let stop = c.on_input(UciGuiToEngine::Stop);
    assert_eq!(
        stop,
        vec![
            HandlerAction::ToGui(UciEngineToGui::BestMove("0000".to_string())),
            HandlerAction::ToEngine(HandlerTx::StopSearch)
        ]
    );
    assert_eq!(c.state, UciHandlerState::Idle);
    c.on_input(UciGuiToEngine::Go(String::new()));
    c.on_engine(EngineMsg::CurrentBestMove("g1f3".to_string()));
    let stop = c.on_input(UciGuiToEngine::Stop);
    assert_eq!(stop[0], HandlerAction::ToGui(UciEngineToGui::BestMove("g1f3".to_string())));
    let done = c.on_engine(EngineMsg::FinalBestMove("d2d4".to_string()));
    assert_eq!(done, vec![HandlerAction::ToGui(UciEngineToGui::BestMove("d2d4".to_string()))]);
    assert_eq!(c.on_input(UciGuiToEngine::IsReady), vec![HandlerAction::ToGui(UciEngineToGui::ReadyOk)]);
    assert_eq!(c.on_input(UciGuiToEngine::Quit), vec![HandlerAction::Quit]);
}
