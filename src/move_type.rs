use vstd::prelude::*;

verus! {

/// The geometric class of a move, as decided by the moving piece's own rule.
#[derive(Debug, Clone, Copy, PartialEq, Eq, Structural)]
pub enum MoveType {
    Illegal,
    Pawn1,
    Pawn2,
    PawnCapture,
    Rook,
    Knight,
    Bishop,
    Queen,
    KingNormal,
    KingCastleKingSide,
    KingCastleQueenSide,
}

} // verus!
