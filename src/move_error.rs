use vstd::prelude::*;

verus! {

/// Why a move was rejected. A rejected move leaves the board untouched.
#[derive(Debug, Clone, Copy, PartialEq, Eq, Structural)]
pub enum MoveError {
    NoPieceOnSourceSquare,
    MustMovePiece,
    IllegalMove,
    KingInCheck,
    CannotCaptureOwnPiece,
    PieceWrongColor,
    MoveBlocked,
}

/// The description of an error.
pub open spec fn error_text(e: MoveError) -> Seq<char> {
    match e {
        MoveError::NoPieceOnSourceSquare => "The source square is empty"@,
        MoveError::MustMovePiece => "Must move piece"@,
        MoveError::IllegalMove => "Illegal move"@,
        MoveError::KingInCheck => "King is in check"@,
        MoveError::CannotCaptureOwnPiece => "Cannot capture own piece"@,
        MoveError::PieceWrongColor => "Cannot move opponent's piece"@,
        MoveError::MoveBlocked => "Move is blocked"@,
    }
}

impl MoveError {
    /// A human-readable description of the error.
    pub fn message(&self) -> (r: &'static str)
        ensures
            r@ == error_text(*self),
    {
        match self {
            MoveError::NoPieceOnSourceSquare => "The source square is empty",
            MoveError::MustMovePiece => "Must move piece",
            MoveError::IllegalMove => "Illegal move",
            MoveError::KingInCheck => "King is in check",
            MoveError::CannotCaptureOwnPiece => "Cannot capture own piece",
            MoveError::PieceWrongColor => "Cannot move opponent's piece",
            MoveError::MoveBlocked => "Move is blocked",
        }
    }
}

} // verus!
