use vstd::prelude::*;
use crate::notation::push_char;
use crate::piece::lower_ascii;
use crate::piece_type::{PieceType, type_letter};

verus! {

/// A move: source and destination coordinates (file, rank, both zero-based),
/// the kind of the moving piece, and an optional promotion kind.
#[derive(Debug, Clone, Copy, PartialEq, Eq, Structural)]
pub struct Move {
    pub from_x: usize,
    pub from_y: usize,
    pub to_x: usize,
    pub to_y: usize,
    pub piece_type: PieceType,
    pub promotion: Option<PieceType>,
}

pub open spec fn file_char(x: usize) -> char {
    (x + 'a' as int) as char
}

pub open spec fn rank_char(y: usize) -> char {
    (y + '1' as int) as char
}

/// Long algebraic text: source and destination squares, then the promotion
/// kind as a lower-case letter ("e2e4", "e7e8q").
pub open spec fn long_text(m: Move) -> Seq<char> {
    let base = seq![file_char(m.from_x), rank_char(m.from_y), file_char(m.to_x), rank_char(m.to_y)];
    match m.promotion {
        Some(t) => base.push(lower_ascii(type_letter(t))),
        None => base,
    }
}

/// Descriptive text: the piece letter (none for a pawn), the two squares,
/// and an upper-case promotion letter ("Ng1f3", "e7e8Q").
pub open spec fn move_text(m: Move) -> Seq<char> {
    let piece = if m.piece_type == PieceType::Pawn { Seq::empty() } else { seq![type_letter(m.piece_type)] };
    let base = piece + seq![file_char(m.from_x), rank_char(m.from_y), file_char(m.to_x), rank_char(m.to_y)];
    match m.promotion {
        Some(t) => base.push(type_letter(t)),
        None => base,
    }
}

impl Move {
    pub open spec fn on_board(&self) -> bool {
        self.from_x < 8 && self.from_y < 8 && self.to_x < 8 && self.to_y < 8
    }

    fn push_squares(&self, s: &mut String)
        requires
            self.on_board(),
        ensures
            final(s)@ == old(s)@ + seq![file_char(self.from_x), rank_char(self.from_y), file_char(self.to_x), rank_char(self.to_y)],
    {
        push_char(s, ((self.from_x as u8) + 97) as char);
        push_char(s, ((self.from_y as u8) + 49) as char);
        push_char(s, ((self.to_x as u8) + 97) as char);
        push_char(s, ((self.to_y as u8) + 49) as char);
        assert(s@ =~= old(s)@ + seq![file_char(self.from_x), rank_char(self.from_y), file_char(self.to_x), rank_char(self.to_y)]);
    }

    /// The move in long algebraic notation, as the UCI protocol writes it.
    pub fn extended_algebraic(&self) -> (r: String)
        requires
            self.on_board(),
        ensures
            r@ == long_text(*self),
    {
        let mut s = String::new();
        self.push_squares(&mut s);
        if let Some(t) = self.promotion {
            push_char(&mut s, ((t.letter() as u8) + 32) as char);
        }
        assert(s@ =~= long_text(*self));
        s
    }

    /// The move as descriptive text: piece letter, squares, promotion.
    pub fn to_text(&self) -> (r: String)
        requires
            self.on_board(),
        ensures
            r@ == move_text(*self),
    {
        let mut s = String::new();
        if self.piece_type != PieceType::Pawn {
            push_char(&mut s, self.piece_type.letter());
        }
        self.push_squares(&mut s);
        if let Some(t) = self.promotion {
            push_char(&mut s, t.letter());
        }
        assert(s@ =~= move_text(*self));
        s
    }

    pub fn new(
        from_x: usize,
        from_y: usize,
        to_x: usize,
        to_y: usize,
        piece_type: PieceType,
        promotion: Option<PieceType>,
    ) -> (r: Move)
        ensures
            r == (Move { from_x, from_y, to_x, to_y, piece_type, promotion }),
    {
        Move { from_x, from_y, to_x, to_y, piece_type, promotion }
    }
}

} // verus!
