//! Properties of the rules that hold for every position and move.
use vstd::prelude::*;
use crate::chess_move::Move;
use crate::color::Color;
use crate::move_type::MoveType;
use crate::piece::{Piece, move_kind};
use crate::piece_type::PieceType;
use crate::rules::{BoardModel, material, move_outcome, signed_value};

verus! {

/// Putting `v` on cell `i` changes the material balance by the value of
/// `v` minus the value of what stood there before.
pub proof fn material_update(g: Seq<Option<Piece>>, i: int, v: Option<Piece>)
    requires
        0 <= i < g.len(),
    ensures
        material(g.update(i, v)) == material(g) - signed_value(g[i]) + signed_value(v),
    decreases g.len(),
{
    let h = g.update(i, v);
    if i == g.len() - 1 {
        assert(h.drop_last() =~= g.drop_last());
    } else {
        assert(h.drop_last() =~= g.drop_last().update(i, v));
        material_update(g.drop_last(), i, v);
    }
}

/// The position reached by playing `ms` in order from `b`; a move that the
/// board rejects leaves the position as it was.
pub open spec fn play(b: BoardModel, ms: Seq<Move>) -> BoardModel
    decreases ms.len(),
{
    if ms.len() == 0 {
        b
    } else {
        let next = match move_outcome(b, ms[0]) {
            Ok(n) => n,
            Err(_) => b,
        };
        play(next, ms.drop_first())
    }
}

/// No accepted move grants a castling right that was not held before.
pub proof fn castling_rights_only_shrink(b: BoardModel, mv: Move)
    ensures
        move_outcome(b, mv) matches Ok(n) ==> {
            &&& n.wk_castle ==> b.wk_castle
            &&& n.wq_castle ==> b.wq_castle
            &&& n.bk_castle ==> b.bk_castle
            &&& n.bq_castle ==> b.bq_castle
        },
{
}

/// A castling right, once lost, stays lost for every sequence of moves.
pub proof fn castling_rights_never_return(b: BoardModel, ms: Seq<Move>)
    ensures
        !b.wk_castle ==> !play(b, ms).wk_castle,
        !b.wq_castle ==> !play(b, ms).wq_castle,
        !b.bk_castle ==> !play(b, ms).bk_castle,
        !b.bq_castle ==> !play(b, ms).bq_castle,
    decreases ms.len(),
{
    if ms.len() > 0 {
        castling_rights_only_shrink(b, ms[0]);
        let next = match move_outcome(b, ms[0]) {
            Ok(n) => n,
            Err(_) => b,
        };
        castling_rights_never_return(next, ms.drop_first());
    }
}

/// After an accepted move the en-passant target is set exactly when the
/// move was a two-square pawn advance, and it is then the square the pawn
/// passed over.
pub proof fn en_passant_only_after_double_push(b: BoardModel, mv: Move)
    ensures
        move_outcome(b, mv) matches Ok(n) ==> {
            let p = b.at(mv.from_x as int, mv.from_y as int)->Some_0;
            let double = move_kind(p, mv.from_x as int, mv.from_y as int, mv.to_x as int, mv.to_y as int)
                == MoveType::Pawn2;
            &&& n.en_passant is Some <==> double
            &&& double ==> n.en_passant == Some(
                (mv.to_x, if b.turn == Color::White { 2usize } else { 5usize }),
            )
            &&& double ==> mv.to_y as int == mv.from_y as int + 2 * (if b.turn == Color::White { 1int } else { -1int })
        },
{
}

/// A rejected move changes nothing: the position reached is the one before.
pub proof fn rejected_move_changes_nothing(b: BoardModel, mv: Move)
    ensures
        move_outcome(b, mv) is Err ==> play(b, seq![mv]) == b,
{
    let ms = seq![mv];
    assert(ms.drop_first() =~= Seq::<Move>::empty());
    assert(play(b, Seq::<Move>::empty()) == b);
    assert(ms[0] == mv);
}

/// Each cached king square keeps holding its king after an accepted move
/// that takes no king: neither the destination nor the square beside the
/// source on the destination's file (where a pawn taken en passant stands)
/// holds a king.
pub proof fn king_squares_stay_in_sync(b: BoardModel, mv: Move)
    requires
        b.wf(),
        b.kings_placed(),
        !(b.at(mv.to_x as int, mv.to_y as int) matches Some(q) && q.piece_type == PieceType::King),
        !(b.at(mv.to_x as int, mv.from_y as int) matches Some(q) && q.piece_type == PieceType::King),
    ensures
        move_outcome(b, mv) matches Ok(n) ==> n.kings_placed(),
{
}

} // verus!
