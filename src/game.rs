//! A game: the board and the moves each side has made.
use vstd::prelude::*;
use crate::board::Board;
use crate::chess_move::Move;
use crate::color::Color;
use crate::fen::{fen_position, start_position};
use crate::move_error::MoveError;
use crate::movegen::{legal_moves, lemma_generated_moves_apply};
use crate::rules::{BoardModel, material, move_outcome};

verus! {

/// A game in progress.
pub struct Game {
    pub board: Board,
    pub move_history_white: Vec<Move>,
    pub move_history_black: Vec<Move>,
}

/// How good the move is for the side making it: its material balance after
/// the move, from the mover's point of view.
pub open spec fn move_score(b: BoardModel, m: Move) -> int {
    match move_outcome(b, m) {
        Ok(n) => if b.turn == Color::White { material(n.grid) } else { -material(n.grid) },
        Err(_) => i32::MIN as int,
    }
}

/// The index of the first move among `ms[..k]` with the highest score.
pub open spec fn best_index(b: BoardModel, ms: Seq<Move>, k: int) -> int
    decreases k,
{
    if k <= 1 {
        0
    } else {
        let j = best_index(b, ms, k - 1);
        if move_score(b, ms[k - 1]) > move_score(b, ms[j]) { k - 1 } else { j }
    }
}

proof fn lemma_best_index_bounds(b: BoardModel, ms: Seq<Move>, k: int)
    requires
        1 <= k,
    ensures
        0 <= best_index(b, ms, k) < k,
    decreases k,
{
    if k > 1 {
        lemma_best_index_bounds(b, ms, k - 1);
    }
}

impl Game {
    pub open spec fn wf(&self) -> bool {
        self.board@.wf()
    }

    /// A new game from the initial position.
    pub fn new() -> (r: Game)
        ensures
            r.wf(),
            r.board@ == start_position(),
            r.move_history_white@.len() == 0,
            r.move_history_black@.len() == 0,
    {
        Game { board: Board::starting_position(), move_history_white: Vec::new(), move_history_black: Vec::new() }
    }

    /// A new game from a FEN position; `None` when the text is not valid FEN.
    pub fn from_fen(fen: &str) -> (r: Option<Game>)
        ensures
            match fen_position(fen@) {
                Some(m) => r is Some && r->0.board@ == m && r->0.wf() && r->0.move_history_white@.len() == 0
                    && r->0.move_history_black@.len() == 0,
                None => r is None,
            },
    {
        match Board::from_fen(fen) {
            Some(board) => Some(Game { board, move_history_white: Vec::new(), move_history_black: Vec::new() }),
            None => None,
        }
    }

    /// Applies a move and records it in the history of the side that made it.
    pub fn make_move(&mut self, mv: Move) -> (r: Result<(), MoveError>)
        requires
            old(self).wf(),
        ensures
            final(self).wf(),
            match move_outcome(old(self).board@, mv) {
                Ok(b) => {
                    &&& r is Ok
                    &&& final(self).board@ == b
                    &&& old(self).board@.turn == Color::White ==> final(self).move_history_white@ == old(
                        self,
                    ).move_history_white@.push(mv) && final(self).move_history_black@ == old(self).move_history_black@
                    &&& old(self).board@.turn == Color::Black ==> final(self).move_history_black@ == old(
                        self,
                    ).move_history_black@.push(mv) && final(self).move_history_white@ == old(self).move_history_white@
                },
                Err(e) => {
                    &&& r == Err::<(), MoveError>(e)
                    &&& final(self).board@ == old(self).board@
                    &&& final(self).move_history_white@ == old(self).move_history_white@
                    &&& final(self).move_history_black@ == old(self).move_history_black@
                },
            },
    {
        let mover = *self.board.get_player_turn();
        match self.board.move_piece(mv) {
            Ok(()) => {
                match mover {
                    Color::White => self.move_history_white.push(mv),
                    Color::Black => self.move_history_black.push(mv),
                }
                Ok(())
            },
            Err(e) => Err(e),
        }
    }

    /// Plays the legal move that leaves the side to move with the best
    /// material balance (the first such move in generation order), records
    /// it, and returns it; `None` when there is no legal move.
    pub fn engine_move(&mut self) -> (r: Option<Move>)
        requires
            old(self).wf(),
        ensures
            final(self).wf(),
            ({
                let b = old(self).board@;
                let ms = legal_moves(b);
                if ms.len() == 0 {
                    &&& r is None
                    &&& final(self).board@ == b
                    &&& final(self).move_history_white@ == old(self).move_history_white@
                    &&& final(self).move_history_black@ == old(self).move_history_black@
                } else {
                    let best = ms[best_index(b, ms, ms.len() as int)];
                    &&& r == Some(best)
                    &&& move_outcome(b, best) == Ok::<BoardModel, MoveError>(final(self).board@)
                    &&& b.turn == Color::White ==> final(self).move_history_white@ == old(
                        self,
                    ).move_history_white@.push(best) && final(self).move_history_black@ == old(self).move_history_black@
                    &&& b.turn == Color::Black ==> final(self).move_history_black@ == old(
                        self,
                    ).move_history_black@.push(best) && final(self).move_history_white@ == old(self).move_history_white@
                }
            }),
    {
        let ghost b = self.board@;
        let moves = self.board.generate_legal_moves();
        if moves.len() == 0 {
            return None;
        }
        let white = *self.board.get_player_turn() == Color::White;
        let mut best_move_index: usize = 0;
        let mut best_move_score: i32 = self.score(&moves[0], white);
        let mut i: usize = 1;
        while i < moves.len()
            invariant
                self.board@ == b,
                b.wf(),
                white == (b.turn == Color::White),
                moves@ == legal_moves(b),
                1 <= i <= moves@.len(),
                best_move_index as int == best_index(b, moves@, i as int),
                best_move_index < i,
                best_move_score as int == move_score(b, moves@[best_move_index as int]),
            decreases moves@.len() - i,
        {
            let score = self.score(&moves[i], white);
            if score > best_move_score {
                best_move_score = score;
                best_move_index = i;
            }
            i = i + 1;
        }
        let best_move = moves[best_move_index];
        proof {
            lemma_generated_moves_apply(b);
        }
        match self.make_move(best_move) {
            Ok(()) => {},
            Err(_) => {},
        }
        Some(best_move)
    }

    /// The score of a move for the side to move.
    fn score(&self, mv: &Move, white: bool) -> (r: i32)
        requires
            self.wf(),
            white == (self.board@.turn == Color::White),
        ensures
            r as int == move_score(self.board@, *mv),
    {
        match self.board.evaluate_move(*mv) {
            Ok(v) => if white { v } else { -v },
            Err(_) => i32::MIN,
        }
    }
}

} // verus!
