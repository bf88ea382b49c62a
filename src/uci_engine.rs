//! The decisions of the UCI front-end: the engine worker's handling of
//! requests and the coordinator's state machine. Channels, threads and
//! terminal I/O are left to the program that drives them.
use vstd::prelude::*;
use crate::algebraic::parse_long;
use crate::chess_move::{Move, long_text};
use crate::fen::{fields_of, fen_position, split_fields, start_position, views};
use crate::game::{Game, best_index};
use crate::move_error::MoveError;
use crate::movegen::{legal_moves, accepted};
use crate::notation::{chars_of, trim};
use crate::rules::{BoardModel, move_outcome};
use crate::uci::{EngineMsg, HandlerTx, UciEngineToGui, UciGuiToEngine, join_words, same_text, join_from, copy_text};

verus! {

/// Whether the engine worker is searching.
#[derive(Debug, Clone, Copy, PartialEq, Eq, Structural)]
pub enum UciEngineState {
    Idle,
    Running,
}

/// The engine worker: it owns the game and answers the coordinator's requests.
pub struct UciEngine {
    pub state: UciEngineState,
    pub game: Game,
}

/// The position reached by playing the long-algebraic moves `ws` in order;
/// play stops at the first one that does not name an accepted move.
pub open spec fn replay(b: BoardModel, ws: Seq<Seq<char>>) -> BoardModel
    decreases ws.len(),
{
    if ws.len() == 0 {
        b
    } else {
        match parse_long(b, trim(ws[0])) {
            Some(m) => match move_outcome(b, m) {
                Ok(n) => replay(n, ws.drop_first()),
                Err(_) => b,
            },
            None => b,
        }
    }
}

/// The position that "startpos [moves m1 m2 ...]" sets up, given the text
/// after "startpos".
pub open spec fn position_after(moves: Seq<char>) -> BoardModel {
    let f = fields_of(moves);
    if f.len() > 0 && f[0] == "moves"@ {
        replay(start_position(), f.subrange(1, f.len() as int))
    } else {
        start_position()
    }
}

/// An accepted move stays on the board.
pub proof fn lemma_accepted_on_board(b: BoardModel, m: Move)
    requires
        accepted(b, m),
    ensures
        m.on_board(),
{
}

impl UciEngine {
    pub fn new() -> (r: UciEngine)
        ensures
            r.state == UciEngineState::Idle,
            r.game.wf(),
            r.game.board@ == start_position(),
    {
        UciEngine { state: UciEngineState::Idle, game: Game::new() }
    }

    /// Sets up the position of a FEN text; text that is not FEN leaves the
    /// game as it was.
    pub fn handle_new_fen(&mut self, fen: &str) -> (r: EngineMsg)
        requires
            old(self).game.wf(),
        ensures
            r == EngineMsg::PositionSet,
            final(self).game.wf(),
            final(self).state == old(self).state,
            match fen_position(fen@) {
                Some(m) => final(self).game.board@ == m,
                None => final(self).game.board@ == old(self).game.board@,
            },
    {
        if let Some(game) = Game::from_fen(fen) {
            self.game = game;
        }
        EngineMsg::PositionSet
    }

    /// Sets up the initial position and plays the moves listed after the
    /// word "moves".
    pub fn handle_starting_position(&mut self, moves: &str) -> (r: EngineMsg)
        requires
            old(self).game.wf(),
        ensures
            r == EngineMsg::PositionSet,
            final(self).game.wf(),
            final(self).state == old(self).state,
            final(self).game.board@ == position_after(moves@),
    {
        self.game = Game::new();
        let text = chars_of(moves);
        let parts = split_fields(&text);
        let ghost f = fields_of(moves@);
        if parts.len() == 0 {
            return EngineMsg::PositionSet;
        }
        assert(views(parts@)[0] == parts@[0]@);
        if !same_text(&parts[0], "moves") {
            return EngineMsg::PositionSet;
        }
        let ghost all = f.subrange(1, f.len() as int);
        let mut i: usize = 1;
        assert(f.subrange(1, f.len() as int) =~= f.subrange(i as int, f.len() as int));
        while i < parts.len()
            invariant
                self.game.wf(),
                self.state == old(self).state,
                f == fields_of(moves@),
                f.len() > 0 && f[0] == "moves"@,
                all == f.subrange(1, f.len() as int),
                views(parts@) == f,
                1 <= i <= parts@.len(),
                replay(start_position(), all) == replay(self.game.board@, f.subrange(i as int, f.len() as int)),
            decreases parts@.len() - i,
        {
            let ghost b = self.game.board@;
            let ghost rest = f.subrange(i as int, f.len() as int);
            assert(rest[0] == parts@[i as int]@);
            assert(rest.drop_first() =~= f.subrange(i + 1, f.len() as int));
            match self.game.board.parse_long_algebraic(&parts[i]) {
                None => {
                    assert(replay(b, rest) == b);
                    return EngineMsg::PositionSet;
                },
                Some(mv) => {
                    if self.game.make_move(mv).is_err() {
                        assert(replay(b, rest) == b);
                        return EngineMsg::PositionSet;
                    }
                },
            }
            i = i + 1;
        }
        assert(f.subrange(i as int, f.len() as int) =~= Seq::<Seq<char>>::empty());
        EngineMsg::PositionSet
    }

    /// Plays the engine's move and reports it in long algebraic notation, or
    /// the null move "0000" when there is no legal move.
    pub fn handle_start_search(&mut self) -> (r: EngineMsg)
        requires
            old(self).game.wf(),
        ensures
            final(self).game.wf(),
            final(self).state == UciEngineState::Idle,
            ({
                let b = old(self).game.board@;
                let ms = legal_moves(b);
                r matches EngineMsg::FinalBestMove(s) && if ms.len() == 0 {
                    s@ == "0000"@ && final(self).game.board@ == b
                } else {
                    let best = ms[best_index(b, ms, ms.len() as int)];
                    s@ == long_text(best) && move_outcome(b, best) == Ok::<BoardModel, MoveError>(final(self).game.board@)
                }
            }),
    {
        self.state = UciEngineState::Running;
        let ghost b = self.game.board@;
        let text = match self.game.engine_move() {
            Some(mv) => {
                proof {
                    lemma_accepted_on_board(b, mv);
                }
                mv.extended_algebraic()
            },
            None => copy_text("0000"),
        };
        self.state = UciEngineState::Idle;
        EngineMsg::FinalBestMove(text)
    }

    /// Ends a search: nothing while idle, otherwise the null move "0000".
    pub fn handle_stop_search(&mut self) -> (r: Option<EngineMsg>)
        ensures
            final(self).state == UciEngineState::Idle,
            final(self).game.board@ == old(self).game.board@,
            old(self).state == UciEngineState::Idle ==> r is None,
            old(self).state == UciEngineState::Running ==> (r matches Some(EngineMsg::FinalBestMove(s)) && s@ == "0000"@),
    {
        if self.state == UciEngineState::Idle {
            return None;
        }
        let text = copy_text("0000");
        self.state = UciEngineState::Idle;
        Some(EngineMsg::FinalBestMove(text))
    }

    /// Plays a move given in long algebraic notation.
    pub fn handle_make_move(&mut self, mv: &str) -> (r: Result<(), MoveError>)
        requires
            old(self).game.wf(),
        ensures
            final(self).game.wf(),
            final(self).state == old(self).state,
            match parse_long(old(self).game.board@, trim(mv@)) {
                None => r == Err::<(), MoveError>(MoveError::IllegalMove) && final(self).game.board@ == old(self).game.board@,
                Some(m) => match move_outcome(old(self).game.board@, m) {
                    Ok(n) => r is Ok && final(self).game.board@ == n,
                    Err(e) => r == Err::<(), MoveError>(e) && final(self).game.board@ == old(self).game.board@,
                },
            },
    {
        let text = chars_of(mv);
        match self.game.board.parse_long_algebraic(&text) {
            None => Err(MoveError::IllegalMove),
            Some(m) => self.game.make_move(m),
        }
    }

    /// Handles one request of the coordinator, returning the report to send
    /// back, if any.
    pub fn handle(&mut self, msg: HandlerTx) -> (r: Option<EngineMsg>)
        requires
            old(self).game.wf(),
        ensures
            final(self).game.wf(),
            match msg {
                HandlerTx::NewFen(fen) => r == Some(EngineMsg::PositionSet) && match fen_position(fen@) {
                    Some(m) => final(self).game.board@ == m,
                    None => final(self).game.board@ == old(self).game.board@,
                },
                HandlerTx::StartingPosition(moves) => r == Some(EngineMsg::PositionSet) && final(self).game.board@
                    == position_after(moves@),
                HandlerTx::StartSearch => r matches Some(EngineMsg::FinalBestMove(_)) && final(self).state
                    == UciEngineState::Idle,
                HandlerTx::StopSearch => final(self).state == UciEngineState::Idle && (old(self).state
                    == UciEngineState::Idle ==> r is None),
                HandlerTx::MakeMove(mv) => r is None && match parse_long(old(self).game.board@, trim(mv@)) {
                    Some(m) => match move_outcome(old(self).game.board@, m) {
                        Ok(n) => final(self).game.board@ == n,
                        Err(_) => final(self).game.board@ == old(self).game.board@,
                    },
                    None => final(self).game.board@ == old(self).game.board@,
                },
            },
    {
        match msg {
            HandlerTx::NewFen(fen) => Some(self.handle_new_fen(fen.as_str())),
            HandlerTx::StartingPosition(moves) => Some(self.handle_starting_position(moves.as_str())),
            HandlerTx::StartSearch => Some(self.handle_start_search()),
            HandlerTx::StopSearch => self.handle_stop_search(),
            HandlerTx::MakeMove(mv) => {
                let _ = self.handle_make_move(mv.as_str());
                None
            },
        }
    }
}

/// The coordinator's states.
#[derive(Debug, Clone, Copy, PartialEq, Eq, Structural)]
pub enum UciHandlerState {
    /// Just created.
    New,
    /// The "uci" handshake is done.
    Ready,
    /// A position is set.
    Idle,
    /// A search is running.
    Thinking,
    /// Waiting for the engine worker to report.
    WaitMsg,
}

/// What the coordinator does next.
#[derive(Debug, PartialEq)]
pub enum HandlerAction {
    ToGui(UciEngineToGui),
    ToEngine(HandlerTx),
    Quit,
}

/// The coordinator between the GUI and the engine worker.
pub struct UciCoordinator {
    pub name: String,
    pub author: String,
    pub state: UciHandlerState,
    pub current_best_move: Option<String>,
}

impl UciCoordinator {
    pub fn new(name: String, author: String) -> (r: UciCoordinator)
        ensures
            r.state == UciHandlerState::New,
            r.current_best_move is None,
            r.name@ == name@,
            r.author@ == author@,
    {
        UciCoordinator { name, author, state: UciHandlerState::New, current_best_move: None }
    }

    /// Takes a report of the engine worker.
    pub fn on_engine(&mut self, message: EngineMsg) -> (r: Vec<HandlerAction>)
        ensures
            match message {
                EngineMsg::PositionSet => r@.len() == 0 && final(self).state == UciHandlerState::Idle
                    && final(self).current_best_move == old(self).current_best_move,
                EngineMsg::CurrentBestMove(mv) => r@.len() == 0 && final(self).state == old(self).state
                    && final(self).current_best_move == Some(mv),
                EngineMsg::FinalBestMove(mv) => r@.len() == 1 && (r@[0] matches HandlerAction::ToGui(
                    UciEngineToGui::BestMove(s),
                ) && s@ == mv@) && final(self).state == UciHandlerState::Idle && final(self).current_best_move
                    == old(self).current_best_move,
            },
            final(self).name == old(self).name,
            final(self).author == old(self).author,
    {
        let mut actions: Vec<HandlerAction> = Vec::new();
        match message {
            EngineMsg::PositionSet => {
                self.state = UciHandlerState::Idle;
            },
            EngineMsg::CurrentBestMove(mv) => {
                self.current_best_move = Some(mv);
            },
            EngineMsg::FinalBestMove(mv) => {
                actions.push(HandlerAction::ToGui(UciEngineToGui::best_move(mv.as_str())));
                self.state = UciHandlerState::Idle;
            },
        }
        actions
    }

    /// Takes a command of the GUI. "uci" is answered only in `New`, a
    /// position is accepted in `Ready` (set up) and `Idle` (one move
    /// appended), "go" only in `Idle`, and "stop" only while `Thinking`,
    /// where it answers with the best move known or the null move "0000".
    pub fn on_input(&mut self, input: UciGuiToEngine) -> (r: Vec<HandlerAction>)
        ensures
            final(self).name == old(self).name,
            final(self).author == old(self).author,
            match input {
                UciGuiToEngine::Uci => if old(self).state == UciHandlerState::New {
                    &&& r@.len() == 3
                    &&& r@[0] matches HandlerAction::ToGui(UciEngineToGui::Id(s)) && s@ == "name "@ + old(self).name@
                    &&& r@[1] matches HandlerAction::ToGui(UciEngineToGui::Id(s)) && s@ == "author "@ + old(self).author@
                    &&& r@[2] == HandlerAction::ToGui(UciEngineToGui::UciOk)
                    &&& final(self).state == UciHandlerState::Ready
                } else {
                    r@.len() == 0 && final(self).state == old(self).state
                },
                UciGuiToEngine::IsReady => r@ == seq![HandlerAction::ToGui(UciEngineToGui::ReadyOk)] && final(self).state
                    == old(self).state,
                UciGuiToEngine::Position(pos) => {
                    let f = fields_of(pos@);
                    let rest = join_words(f.subrange(1, f.len() as int));
                    if old(self).state == UciHandlerState::Ready {
                        &&& final(self).state == UciHandlerState::WaitMsg
                        &&& if f.len() > 0 && f[0] == "startpos"@ {
                            r@.len() == 1 && (r@[0] matches HandlerAction::ToEngine(HandlerTx::StartingPosition(s)) && s@ == rest)
                        } else if f.len() > 0 && f[0] == "fen"@ {
                            r@.len() == 1 && (r@[0] matches HandlerAction::ToEngine(HandlerTx::NewFen(s)) && s@ == rest)
                        } else {
                            r@.len() == 0
                        }
                    } else if old(self).state == UciHandlerState::Idle {
                        &&& final(self).state == UciHandlerState::Idle
                        &&& if f.len() > 0 {
                            r@.len() == 1 && (r@[0] matches HandlerAction::ToEngine(HandlerTx::MakeMove(s)) && s@ == f.last())
                        } else {
                            r@.len() == 0
                        }
                    } else {
                        r@.len() == 0 && final(self).state == old(self).state
                    }
                },
                UciGuiToEngine::Go(_) => if old(self).state == UciHandlerState::Idle {
                    r@ == seq![HandlerAction::ToEngine(HandlerTx::StartSearch)] && final(self).state == UciHandlerState::Thinking
                } else {
                    r@.len() == 0 && final(self).state == old(self).state
                },
                UciGuiToEngine::Stop => if old(self).state == UciHandlerState::Thinking {
                    &&& r@.len() == 2
                    &&& r@[0] matches HandlerAction::ToGui(UciEngineToGui::BestMove(s)) && s@ == match old(
                        self,
                    ).current_best_move {
                        Some(m) => m@,
                        None => "0000"@,
                    }
                    &&& r@[1] == HandlerAction::ToEngine(HandlerTx::StopSearch)
                    &&& final(self).state == UciHandlerState::Idle
                    &&& final(self).current_best_move is None
                } else {
                    r@.len() == 0 && final(self).state == old(self).state
                },
                UciGuiToEngine::Quit => r@ == seq![HandlerAction::Quit] && final(self).state == old(self).state,
                _ => r@.len() == 0 && final(self).state == old(self).state,
            },
    {
        let mut actions: Vec<HandlerAction> = Vec::new();
        match input {
            UciGuiToEngine::Uci => {
                if self.state == UciHandlerState::New {
                    actions.push(HandlerAction::ToGui(UciEngineToGui::id_name(self.name.as_str())));
                    actions.push(HandlerAction::ToGui(UciEngineToGui::id_author(self.author.as_str())));
                    actions.push(HandlerAction::ToGui(UciEngineToGui::uci_ok()));
                    self.state = UciHandlerState::Ready;
                }
            },
            UciGuiToEngine::IsReady => {
                actions.push(HandlerAction::ToGui(UciEngineToGui::ready_ok()));
                assert(actions@ =~= seq![HandlerAction::ToGui(UciEngineToGui::ReadyOk)]);
            },
            UciGuiToEngine::Position(pos) => {
                let text = chars_of(pos.as_str());
                let parts = split_fields(&text);
                let ghost f = fields_of(pos@);
                if self.state == UciHandlerState::Ready {
                    if parts.len() > 0 {
                        assert(views(parts@)[0] == parts@[0]@);
                        if same_text(&parts[0], "startpos") {
                            actions.push(HandlerAction::ToEngine(HandlerTx::StartingPosition(join_from(&parts, 1))));
                        } else if same_text(&parts[0], "fen") {
                            actions.push(HandlerAction::ToEngine(HandlerTx::NewFen(join_from(&parts, 1))));
                        }
                    }
                    self.state = UciHandlerState::WaitMsg;
                } else if self.state == UciHandlerState::Idle {
                    if parts.len() > 0 {
                        let last = parts.len() - 1;
                        assert(views(parts@)[last as int] == parts@[last as int]@);
                        actions.push(HandlerAction::ToEngine(HandlerTx::MakeMove(join_from(&parts, last))));
                        assert(views(parts@).subrange(last as int, parts@.len() as int) =~= seq![f.last()]);
                    }
                }
            },
            UciGuiToEngine::Go(_) => {
                if self.state == UciHandlerState::Idle {
                    actions.push(HandlerAction::ToEngine(HandlerTx::StartSearch));
                    assert(actions@ =~= seq![HandlerAction::ToEngine(HandlerTx::StartSearch)]);
                    self.state = UciHandlerState::Thinking;
                }
            },
            UciGuiToEngine::Stop => {
                if self.state == UciHandlerState::Thinking {
                    let mv = match self.current_best_move.take() {
                        Some(mv) => mv,
                        None => copy_text("0000"),
                    };
                    actions.push(HandlerAction::ToGui(UciEngineToGui::best_move(mv.as_str())));
                    actions.push(HandlerAction::ToEngine(HandlerTx::StopSearch));
                    self.state = UciHandlerState::Idle;
                }
            },
            UciGuiToEngine::Quit => {
                actions.push(HandlerAction::Quit);
                assert(actions@ =~= seq![HandlerAction::Quit]);
            },
            _ => {},
        }
        actions
    }
}

} // verus!
