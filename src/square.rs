use vstd::prelude::*;
use crate::color::Color;
use crate::piece::{Piece, piece_letter};
use crate::piece_type::PieceType;

verus! {

/// An occupied square: a piece kind together with its colour.
pub struct Square {
    piece: PieceType,
    color: Color,
}

impl Square {
    pub closed spec fn spec_piece(&self) -> PieceType {
        self.piece
    }

    pub closed spec fn spec_color(&self) -> Color {
        self.color
    }

    pub fn new(piece: PieceType, color: Color) -> (r: Square)
        ensures
            r.spec_piece() == piece,
            r.spec_color() == color,
    {
        Square { piece, color }
    }

    pub fn get_piece(&self) -> (r: &PieceType)
        ensures
            *r == self.spec_piece(),
    {
        &self.piece
    }

    pub fn get_color(&self) -> (r: &Color)
        ensures
            *r == self.spec_color(),
    {
        &self.color
    }

    /// The FEN letter of the occupant: upper case for White, lower case for Black.
    pub fn get_piece_char(&self) -> (r: char)
        ensures
            r == piece_letter(Piece { piece_type: self.spec_piece(), color: self.spec_color() }),
    {
        Piece::new(self.piece, self.color).get_piece_char()
    }
}

} // verus!
