//! Material evaluation.
use vstd::prelude::*;
use crate::board::Board;
use crate::chess_move::Move;
use crate::color::Color;
use crate::move_error::MoveError;
use crate::piece_type::centipawns;
use crate::rules::{material, move_outcome, signed_value};

verus! {

proof fn lemma_material_step(g: Seq<Option<crate::piece::Piece>>, k: int)
    requires
        0 <= k < g.len(),
    ensures
        material(g.subrange(0, k + 1)) == material(g.subrange(0, k)) + signed_value(g[k]),
{
    assert(g.subrange(0, k + 1).drop_last() =~= g.subrange(0, k));
}

impl Board {
    /// White's material minus Black's, in centipawns: pawn 100, knight and
    /// bishop 300, rook 500, queen 900, king 0.
    pub fn basic_evaluate(&self) -> (r: i32)
        requires
            self@.wf(),
        ensures
            r as int == material(self@.grid),
            -57600 <= r <= 57600,
    {
        let mut total: i32 = 0;
        let mut k: usize = 0;
        while k < 64
            invariant
                self@.wf(),
                k <= 64,
                total as int == material(self@.grid.subrange(0, k as int)),
                -900 * k <= total <= 900 * k,
            decreases 64 - k,
        {
            proof {
                lemma_material_step(self@.grid, k as int);
            }
            if let Some(piece) = self.cell_at(k) {
                let value = piece.to_centipawns();
                match piece.color {
                    Color::White => total = total + value,
                    Color::Black => total = total - value,
                }
            }
            k = k + 1;
        }
        assert(self@.grid.subrange(0, 64) =~= self@.grid);
        total
    }

    /// The material balance after the move, found on a copy; or why the
    /// move is rejected.
    pub fn evaluate_move(&self, mv: Move) -> (r: Result<i32, MoveError>)
        requires
            self@.wf(),
        ensures
            match move_outcome(self@, mv) {
                Ok(b) => r == Ok::<i32, MoveError>(material(b.grid) as i32) && material(b.grid) == r->Ok_0 as int
                    && -57600 <= r->Ok_0 <= 57600,
                Err(e) => r == Err::<i32, MoveError>(e),
            },
    {
        let mut temp_board = self.duplicate();
        match temp_board.move_piece(mv) {
            Ok(()) => Ok(temp_board.basic_evaluate()),
            Err(e) => Err(e),
        }
    }
}

} // verus!
