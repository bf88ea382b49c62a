//! Counting move sequences to a given depth ("perft").
use vstd::prelude::*;
use crate::board::Board;
use crate::chess_move::Move;
use crate::movegen::legal_moves;
use crate::rules::{BoardModel, move_outcome};

verus! {

/// The number of legal move sequences of length `depth` from `b`.
pub open spec fn perft_count(b: BoardModel, depth: nat) -> nat
    decreases depth, 0nat,
{
    if depth == 0 {
        1
    } else {
        children_count(b, legal_moves(b), (depth - 1) as nat)
    }
}

/// The sum, over the moves of `ms` that `b` accepts, of the sequences of
/// length `depth` from the position each one leads to.
pub open spec fn children_count(b: BoardModel, ms: Seq<Move>, depth: nat) -> nat
    decreases depth, ms.len(),
{
    if ms.len() == 0 {
        0
    } else {
        children_count(b, ms.drop_last(), depth) + match move_outcome(b, ms.last()) {
            Ok(next) => perft_count(next, depth),
            Err(_) => 0,
        }
    }
}

pub open spec fn capped(n: nat) -> nat {
    if n > usize::MAX { usize::MAX as nat } else { n }
}

/// The number of legal move sequences of length `depth` from `board`,
/// capped at `usize::MAX`.
pub fn perft(depth: u32, board: Board) -> (r: usize)
    requires
        board@.wf(),
    ensures
        r as nat == capped(perft_count(board@, depth as nat)),
    decreases depth,
{
    if depth == 0 {
        return 1;
    }
    let legal_moves = board.generate_legal_moves();
    let ghost d = (depth - 1) as nat;
    let mut num_moves: usize = 0;
    let mut j: usize = 0;
    while j < legal_moves.len()
        invariant
            board@.wf(),
            depth > 0,
            d == (depth - 1) as nat,
            j <= legal_moves@.len(),
            num_moves as nat == capped(children_count(board@, legal_moves@.subrange(0, j as int), d)),
        decreases legal_moves@.len() - j,
    {
        let mv = legal_moves[j];
        let mut new_board = board.duplicate();
        match new_board.move_piece(mv) {
            Ok(()) => {
                let n = perft(depth - 1, new_board);
                num_moves = num_moves.saturating_add(n);
            },
            Err(_) => {},
        }
        j = j + 1;
        assert(legal_moves@.subrange(0, j as int).drop_last() =~= legal_moves@.subrange(0, j - 1));
    }
    assert(legal_moves@.subrange(0, j as int) =~= legal_moves@);
    num_moves
}

/// The same count as `perft`.
pub fn depth_check(depth: u32, board: Board) -> (r: usize)
    requires
        board@.wf(),
    ensures
        r as nat == capped(perft_count(board@, depth as nat)),
{
    perft(depth, board)
}

} // verus!
