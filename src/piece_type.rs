use vstd::prelude::*;

verus! {

/// The six kinds of chess pieces.
#[derive(Debug, Clone, Copy, PartialEq, Eq, Structural)]
pub enum PieceType {
    Pawn,
    Rook,
    Knight,
    Bishop,
    Queen,
    King,
}

/// Material value of a piece kind in centipawns.
pub open spec fn centipawns(t: PieceType) -> int {
    match t {
        PieceType::Pawn => 100,
        PieceType::Rook => 500,
        PieceType::Knight => 300,
        PieceType::Bishop => 300,
        PieceType::Queen => 900,
        PieceType::King => 0,
    }
}

/// The upper-case letter that names a piece kind.
pub open spec fn type_letter(t: PieceType) -> char {
    match t {
        PieceType::Pawn => 'P',
        PieceType::Rook => 'R',
        PieceType::Knight => 'N',
        PieceType::Bishop => 'B',
        PieceType::Queen => 'Q',
        PieceType::King => 'K',
    }
}

/// The piece kind named by an upper-case letter, if any.
pub open spec fn type_of_letter(c: char) -> Option<PieceType> {
    if c == 'P' {
        Some(PieceType::Pawn)
    } else if c == 'R' {
        Some(PieceType::Rook)
    } else if c == 'N' {
        Some(PieceType::Knight)
    } else if c == 'B' {
        Some(PieceType::Bishop)
    } else if c == 'Q' {
        Some(PieceType::Queen)
    } else if c == 'K' {
        Some(PieceType::King)
    } else {
        None
    }
}

impl PieceType {
    pub fn to_centipawns(&self) -> (r: i32)
        ensures
            r as int == centipawns(*self),
    {
        match self {
            PieceType::Pawn => 100,
            PieceType::Rook => 500,
            PieceType::Knight => 300,
            PieceType::Bishop => 300,
            PieceType::Queen => 900,
            PieceType::King => 0,
        }
    }

    /// The upper-case letter of this kind: P, R, N, B, Q or K.
    pub fn letter(&self) -> (r: char)
        ensures
            r == type_letter(*self),
    {
        match self {
            PieceType::Pawn => 'P',
            PieceType::Rook => 'R',
            PieceType::Knight => 'N',
            PieceType::Bishop => 'B',
            PieceType::Queen => 'Q',
            PieceType::King => 'K',
        }
    }

    /// Reads an upper-case piece letter.
    pub fn try_from_char(c: char) -> (r: Option<PieceType>)
        ensures
            r == type_of_letter(c),
    {
        if c == 'P' {
            Some(PieceType::Pawn)
        } else if c == 'R' {
            Some(PieceType::Rook)
        } else if c == 'N' {
            Some(PieceType::Knight)
        } else if c == 'B' {
            Some(PieceType::Bishop)
        } else if c == 'Q' {
            Some(PieceType::Queen)
        } else if c == 'K' {
            Some(PieceType::King)
        } else {
            None
        }
    }
}

} // verus!
