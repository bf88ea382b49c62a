use vstd::prelude::*;

verus! {

/// The two sides of a chess game.
#[derive(Debug, Clone, Copy, PartialEq, Eq, Structural)]
pub enum Color {
    White,
    Black,
}

impl Color {
    pub open spec fn spec_opposite(self) -> Color {
        match self {
            Color::White => Color::Black,
            Color::Black => Color::White,
        }
    }

    pub fn opposite(&self) -> (r: Color)
        ensures
            r == self.spec_opposite(),
    {
        match self {
            Color::White => Color::Black,
            Color::Black => Color::White,
        }
    }

    pub fn is_white(&self) -> (r: bool)
        ensures
            r == (*self == Color::White),
    {
        *self == Color::White
    }

    /// The name of the colour, "White" or "Black".
    pub fn name(&self) -> (r: &'static str)
        ensures
            r@ == (if *self == Color::White { "White"@ } else { "Black"@ }),
    {
        match self {
            Color::White => "White",
            Color::Black => "Black",
        }
    }
}

} // verus!
