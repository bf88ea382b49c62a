use vstd::prelude::*;
use crate::color::Color;
use crate::move_type::MoveType;
use crate::piece_type::{PieceType, centipawns, type_letter, type_of_letter};

verus! {

/// A chess piece: its kind and its colour.
#[derive(Debug, Clone, Copy, PartialEq, Eq, Structural)]
pub struct Piece {
    pub piece_type: PieceType,
    pub color: Color,
}

/// The FEN letter of a piece: upper case for White, lower case for Black.
pub open spec fn piece_letter(p: Piece) -> char {
    if p.color == Color::Black {
        lower_ascii(type_letter(p.piece_type))
    } else {
        type_letter(p.piece_type)
    }
}

pub open spec fn lower_ascii(c: char) -> char {
    if 'A' <= c && c <= 'Z' {
        ((c as u32) + 32) as char
    } else {
        c
    }
}

pub open spec fn upper_ascii(c: char) -> char {
    if 'a' <= c && c <= 'z' {
        ((c as u32) - 32) as char
    } else {
        c
    }
}

/// The piece that a FEN letter stands for, if any.
pub open spec fn piece_of_letter(c: char) -> Option<Piece> {
    match type_of_letter(upper_ascii(c)) {
        Some(t) => Some(Piece { piece_type: t, color: if 'A' <= c && c <= 'Z' { Color::White } else { Color::Black } }),
        None => None,
    }
}

pub open spec fn abs_diff(a: int, b: int) -> int {
    if a >= b { a - b } else { b - a }
}

/// The forward direction of a pawn of the given colour along the ranks.
pub open spec fn pawn_dir(c: Color) -> int {
    if c == Color::White { 1 } else { -1 }
}

/// The rank on which the pawns of the given colour start.
pub open spec fn pawn_start(c: Color) -> int {
    if c == Color::White { 1 } else { 6 }
}

/// The rank on which the pieces of the given colour start.
pub open spec fn home_rank(c: Color) -> int {
    if c == Color::White { 0 } else { 7 }
}

/// The geometric class of moving `p` from (fx, fy) to (tx, ty), ignoring
/// every other piece on the board.
pub open spec fn move_kind(p: Piece, fx: int, fy: int, tx: int, ty: int) -> MoveType {
    if !(0 <= fx < 8 && 0 <= fy < 8 && 0 <= tx < 8 && 0 <= ty < 8) {
        MoveType::Illegal
    } else {
        match p.piece_type {
            PieceType::Pawn => {
                let d = pawn_dir(p.color);
                if fx == tx {
                    if ty == fy + d {
                        MoveType::Pawn1
                    } else if fy == pawn_start(p.color) && ty == fy + 2 * d {
                        MoveType::Pawn2
                    } else {
                        MoveType::Illegal
                    }
                } else if ty == fy + d && abs_diff(tx, fx) == 1 {
                    MoveType::PawnCapture
                } else {
                    MoveType::Illegal
                }
            },
            PieceType::Rook => if fx == tx || fy == ty { MoveType::Rook } else { MoveType::Illegal },
            PieceType::Knight => {
                let ax = abs_diff(tx, fx);
                let ay = abs_diff(ty, fy);
                if (ax == 2 && ay == 1) || (ax == 1 && ay == 2) {
                    MoveType::Knight
                } else {
                    MoveType::Illegal
                }
            },
            PieceType::Bishop => if abs_diff(tx, fx) == abs_diff(ty, fy) {
                MoveType::Bishop
            } else {
                MoveType::Illegal
            },
            PieceType::Queen => if fx == tx || fy == ty || abs_diff(tx, fx) == abs_diff(ty, fy) {
                MoveType::Queen
            } else {
                MoveType::Illegal
            },
            PieceType::King => {
                if abs_diff(tx, fx) <= 1 && abs_diff(ty, fy) <= 1 {
                    MoveType::KingNormal
                } else if fx == 4 && fy == home_rank(p.color) && ty == fy && tx == 6 {
                    MoveType::KingCastleKingSide
                } else if fx == 4 && fy == home_rank(p.color) && ty == fy && tx == 2 {
                    MoveType::KingCastleQueenSide
                } else {
                    MoveType::Illegal
                }
            },
        }
    }
}

fn udiff(a: usize, b: usize) -> (r: usize)
    ensures
        r as int == abs_diff(a as int, b as int),
{
    if a >= b { a - b } else { b - a }
}

impl Piece {
    pub fn new(piece: PieceType, color: Color) -> (r: Piece)
        ensures
            r.piece_type == piece,
            r.color == color,
    {
        Piece { piece_type: piece, color }
    }

    pub fn get_type(&self) -> (r: &PieceType)
        ensures
            *r == self.piece_type,
    {
        &self.piece_type
    }

    pub fn get_color(&self) -> (r: &Color)
        ensures
            *r == self.color,
    {
        &self.color
    }

    pub fn is_white(&self) -> (r: bool)
        ensures
            r == (self.color == Color::White),
    {
        self.color == Color::White
    }

    /// The FEN letter of this piece: upper case for White, lower case for Black.
    pub fn get_piece_char(&self) -> (r: char)
        ensures
            r == piece_letter(*self),
    {
        let symbol = self.piece_type.letter();
        if self.color == Color::Black {
            ((symbol as u8) + 32) as char
        } else {
            symbol
        }
    }

    /// Reads a FEN piece letter: PRNBQK for White, prnbqk for Black.
    pub fn from_fen(fen: char) -> (r: Option<Piece>)
        ensures
            r == piece_of_letter(fen),
    {
        let upper = if 'a' <= fen && fen <= 'z' { ((fen as u8) - 32) as char } else { fen };
        let color = if 'A' <= fen && fen <= 'Z' { Color::White } else { Color::Black };
        match PieceType::try_from_char(upper) {
            Some(t) => Some(Piece::new(t, color)),
            None => None,
        }
    }

    /// Classifies the move of this piece from (from_x, from_y) to (to_x, to_y)
    /// by the piece's own movement rule alone: blocking pieces, captures and
    /// checks are not considered.
    pub fn check_move(&self, from_x: usize, from_y: usize, to_x: usize, to_y: usize) -> (r: MoveType)
        ensures
            r == move_kind(*self, from_x as int, from_y as int, to_x as int, to_y as int),
    {
        if from_x > 7 || from_y > 7 || to_x > 7 || to_y > 7 {
            return MoveType::Illegal;
        }
        match self.piece_type {
            PieceType::Pawn => self.is_legal_pawn_move(from_x, from_y, to_x, to_y),
            PieceType::Rook => self.is_legal_rook_move(from_x, from_y, to_x, to_y),
            PieceType::Knight => self.is_legal_knight_move(from_x, from_y, to_x, to_y),
            PieceType::Bishop => self.is_legal_bishop_move(from_x, from_y, to_x, to_y),
            PieceType::Queen => self.is_legal_queen_move(from_x, from_y, to_x, to_y),
            PieceType::King => self.is_legal_king_move(from_x, from_y, to_x, to_y),
        }
    }

    fn is_legal_pawn_move(&self, from_x: usize, from_y: usize, to_x: usize, to_y: usize) -> (r: MoveType)
        requires
            from_x < 8 && from_y < 8 && to_x < 8 && to_y < 8,
            self.piece_type == PieceType::Pawn,
        ensures
            r == move_kind(*self, from_x as int, from_y as int, to_x as int, to_y as int),
    {
        let fy = from_y as i32;
        let ty = to_y as i32;
        let direction: i32 = match self.color {
            Color::White => 1,
            Color::Black => -1,
        };
        let start_row: i32 = match self.color {
            Color::White => 1,
            Color::Black => 6,
        };
        if from_x == to_x {
            if ty == fy + direction {
                return MoveType::Pawn1;
            } else if fy == start_row && ty == fy + 2 * direction {
                return MoveType::Pawn2;
            }
        } else {
            if ty == fy + direction && udiff(to_x, from_x) == 1 {
                return MoveType::PawnCapture;
            }
        }
        MoveType::Illegal
    }

    fn is_legal_rook_move(&self, from_x: usize, from_y: usize, to_x: usize, to_y: usize) -> (r: MoveType)
        requires
            from_x < 8 && from_y < 8 && to_x < 8 && to_y < 8,
            self.piece_type == PieceType::Rook,
        ensures
            r == move_kind(*self, from_x as int, from_y as int, to_x as int, to_y as int),
    {
        if from_x != to_x && from_y != to_y {
            return MoveType::Illegal;
        }
        MoveType::Rook
    }

    fn is_legal_knight_move(&self, from_x: usize, from_y: usize, to_x: usize, to_y: usize) -> (r: MoveType)
        requires
            from_x < 8 && from_y < 8 && to_x < 8 && to_y < 8,
            self.piece_type == PieceType::Knight,
        ensures
            r == move_kind(*self, from_x as int, from_y as int, to_x as int, to_y as int),
    {
        let x_diff = udiff(to_x, from_x);
        let y_diff = udiff(to_y, from_y);
        if (x_diff == 2 && y_diff == 1) || (x_diff == 1 && y_diff == 2) {
            return MoveType::Knight;
        }
        MoveType::Illegal
    }

    fn is_legal_bishop_move(&self, from_x: usize, from_y: usize, to_x: usize, to_y: usize) -> (r: MoveType)
        requires
            from_x < 8 && from_y < 8 && to_x < 8 && to_y < 8,
            self.piece_type == PieceType::Bishop,
        ensures
            r == move_kind(*self, from_x as int, from_y as int, to_x as int, to_y as int),
    {
        if udiff(to_x, from_x) != udiff(to_y, from_y) {
            return MoveType::Illegal;
        }
        MoveType::Bishop
    }

    fn is_legal_queen_move(&self, from_x: usize, from_y: usize, to_x: usize, to_y: usize) -> (r: MoveType)
        requires
            from_x < 8 && from_y < 8 && to_x < 8 && to_y < 8,
            self.piece_type == PieceType::Queen,
        ensures
            r == move_kind(*self, from_x as int, from_y as int, to_x as int, to_y as int),
    {
        if from_x != to_x && from_y != to_y {
            if udiff(to_x, from_x) != udiff(to_y, from_y) {
                return MoveType::Illegal;
            }
        }
        MoveType::Queen
    }

    fn is_legal_king_move(&self, from_x: usize, from_y: usize, to_x: usize, to_y: usize) -> (r: MoveType)
        requires
            from_x < 8 && from_y < 8 && to_x < 8 && to_y < 8,
            self.piece_type == PieceType::King,
        ensures
            r == move_kind(*self, from_x as int, from_y as int, to_x as int, to_y as int),
    {
        if udiff(to_x, from_x) <= 1 && udiff(to_y, from_y) <= 1 {
            return MoveType::KingNormal;
        }
        if (self.is_white() && from_y == 0 && from_x == 4) || (!self.is_white() && from_y == 7 && from_x == 4) {
            if to_y == from_y && to_x == 6 {
                return MoveType::KingCastleKingSide;
            }
            if to_y == from_y && to_x == 2 {
                return MoveType::KingCastleQueenSide;
            }
        }
        MoveType::Illegal
    }

    pub fn to_centipawns(&self) -> (r: i32)
        ensures
            r as int == centipawns(self.piece_type),
    {
        self.piece_type.to_centipawns()
    }
}

} // verus!
