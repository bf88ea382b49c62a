//! Moves written in algebraic notation.
use vstd::prelude::*;
use crate::board::Board;
use crate::chess_move::Move;
use crate::color::Color;
use crate::move_error::MoveError;
use crate::move_type::MoveType;
use crate::notation::{chars_of, trim, trim_chars, square_of, square_at, promotion_of, promotion_letter};
use crate::piece::{move_kind, home_rank, upper_ascii};
use crate::piece_type::{PieceType, type_of_letter};
use crate::rules::{BoardModel, move_outcome};

verus! {

/// The index of the first 'x' at or after `i`, or the length when there is none.
pub open spec fn find_x(t: Seq<char>, i: int) -> int
    decreases t.len() - i,
{
    if 0 <= i < t.len() {
        if t[i] == 'x' { i } else { find_x(t, i + 1) }
    } else {
        t.len() as int
    }
}

/// Cell `k` (row-major from a1) holds a piece of the side to move of kind
/// `pt` whose own movement rule reaches (tx, ty).
pub open spec fn is_candidate(b: BoardModel, k: int, pt: PieceType, tx: int, ty: int) -> bool {
    match b.at(k % 8, k / 8) {
        Some(p) => p.color == b.turn && p.piece_type == pt && move_kind(p, k % 8, k / 8, tx, ty) != MoveType::Illegal,
        None => false,
    }
}

/// The candidate source squares among the first `k` cells, in row-major order.
pub open spec fn candidates(b: BoardModel, pt: PieceType, tx: int, ty: int, k: int) -> Seq<(usize, usize)>
    decreases k,
{
    if k <= 0 {
        Seq::empty()
    } else {
        let prev = candidates(b, pt, tx, ty, k - 1);
        if is_candidate(b, k - 1, pt, tx, ty) {
            prev.push((((k - 1) % 8) as usize, ((k - 1) / 8) as usize))
        } else {
            prev
        }
    }
}

/// A pawn move: "e4", "e8Q", "exd5", "exd8N".
pub open spec fn parse_pawn(b: BoardModel, t: Seq<char>) -> Result<Move, MoveError> {
    let promo = promotion_of(t.last());
    let white = b.turn == Color::White;
    if t[1] == 'x' {
        if t.len() < 4 {
            Err(MoveError::IllegalMove)
        } else {
            match square_of(t.subrange(2, 4)) {
                None => Err(MoveError::IllegalMove),
                Some(to) => {
                    let fx = (t[0] as u32 - 'a' as u32) as usize;
                    if !('a' <= t[0] && t[0] <= 'h') || white && to.1 == 0 || !white && to.1 == 7 {
                        Err(MoveError::IllegalMove)
                    } else {
                        let fy = (if white { to.1 - 1 } else { to.1 + 1 }) as usize;
                        Ok(Move { from_x: fx, from_y: fy, to_x: to.0, to_y: to.1, piece_type: PieceType::Pawn, promotion: promo })
                    }
                },
            }
        }
    } else {
        match square_of(t.subrange(0, 2)) {
            None => Err(MoveError::IllegalMove),
            Some(to) => {
                let tx = to.0 as int;
                let ty = to.1 as int;
                let one = if white { ty - 1 } else { ty + 1 };
                let two = if white { ty - 2 } else { ty + 2 };
                if one < 0 || one > 7 {
                    Err(MoveError::IllegalMove)
                } else if b.at(tx, one).is_some() {
                    Ok(Move { from_x: to.0, from_y: one as usize, to_x: to.0, to_y: to.1, piece_type: PieceType::Pawn, promotion: promo })
                } else if two < 0 || two > 7 {
                    Err(MoveError::IllegalMove)
                } else {
                    Ok(Move { from_x: to.0, from_y: two as usize, to_x: to.0, to_y: to.1, piece_type: PieceType::Pawn, promotion: promo })
                }
            },
        }
    }
}

/// A piece move: "Nf3", "Bxe5"; the source is the one piece of that kind
/// and colour that can reach the destination.
pub open spec fn parse_piece(b: BoardModel, t: Seq<char>, pt: PieceType) -> Result<Move, MoveError> {
    let xi = find_x(t, 0);
    let sq = if xi < t.len() {
        if xi + 3 <= t.len() { square_of(t.subrange(xi + 1, xi + 3)) } else { None }
    } else {
        if t.len() >= 3 { square_of(t.subrange(1, 3)) } else { None }
    };
    match sq {
        None => Err(MoveError::IllegalMove),
        Some(to) => {
            let c = candidates(b, pt, to.0 as int, to.1 as int, 64);
            if c.len() == 1 {
                Ok(Move { from_x: c[0].0, from_y: c[0].1, to_x: to.0, to_y: to.1, piece_type: pt, promotion: None })
            } else {
                Err(MoveError::IllegalMove)
            }
        },
    }
}

/// The move that trimmed algebraic text `t` names in position `b`.
pub open spec fn parse_algebraic(b: BoardModel, t: Seq<char>) -> Result<Move, MoveError> {
    if t.len() < 2 {
        Err(MoveError::IllegalMove)
    } else {
        let c0 = t[0];
        let kind = match type_of_letter(c0) {
            Some(p) => Some(p),
            None => if c0 == 'O' {
                Some(PieceType::King)
            } else if 'a' <= c0 && c0 <= 'h' {
                Some(PieceType::Pawn)
            } else {
                None
            },
        };
        let r = home_rank(b.turn) as usize;
        match kind {
            None => Err(MoveError::IllegalMove),
            Some(pt) => if pt == PieceType::King && t == seq!['O', '-', 'O'] {
                Ok(Move { from_x: 4, from_y: r, to_x: 6, to_y: r, piece_type: PieceType::King, promotion: None })
            } else if pt == PieceType::King && t == seq!['O', '-', 'O', '-', 'O'] {
                Ok(Move { from_x: 4, from_y: r, to_x: 2, to_y: r, piece_type: PieceType::King, promotion: None })
            } else if pt == PieceType::Pawn {
                parse_pawn(b, t)
            } else {
                parse_piece(b, t, pt)
            },
        }
    }
}

/// The move that long algebraic text `t` ("e2e4", "e7e8q") names: the two
/// squares, an optional promotion letter in either case, and the kind of
/// the piece on the source square, which must be occupied.
pub open spec fn parse_long(b: BoardModel, t: Seq<char>) -> Option<Move> {
    if t.len() != 4 && t.len() != 5 {
        None
    } else {
        match (square_of(t.subrange(0, 2)), square_of(t.subrange(2, 4))) {
            (Some(from), Some(to)) => {
                let promo = if t.len() == 5 { type_of_letter(upper_ascii(t[4])) } else { None };
                if t.len() == 5 && promo is None {
                    None
                } else {
                    match b.at(from.0 as int, from.1 as int) {
                        Some(p) => Some(Move { from_x: from.0, from_y: from.1, to_x: to.0, to_y: to.1, piece_type: p.piece_type, promotion: promo }),
                        None => None,
                    }
                }
            },
            _ => None,
        }
    }
}

fn is_castle_text(t: &Vec<char>, long: bool) -> (r: bool)
    ensures
        r == (if long { t@ == seq!['O', '-', 'O', '-', 'O'] } else { t@ == seq!['O', '-', 'O'] }),
{
    if long {
        if t.len() != 5 {
            return false;
        }
        let r = t[0] == 'O' && t[1] == '-' && t[2] == 'O' && t[3] == '-' && t[4] == 'O';
        assert(r ==> t@ =~= seq!['O', '-', 'O', '-', 'O']);
        r
    } else {
        if t.len() != 3 {
            return false;
        }
        let r = t[0] == 'O' && t[1] == '-' && t[2] == 'O';
        assert(r ==> t@ =~= seq!['O', '-', 'O']);
        r
    }
}

fn find_x_exec(t: &Vec<char>) -> (r: usize)
    ensures
        r as int == find_x(t@, 0),
        r <= t@.len(),
{
    let mut i: usize = 0;
    while i < t.len() && t[i] != 'x'
        invariant
            i <= t@.len(),
            find_x(t@, i as int) == find_x(t@, 0),
        decreases t@.len() - i,
    {
        i = i + 1;
    }
    i
}

impl Board {
    /// The candidate source squares for a piece move of kind `pt` to (tx, ty).
    fn find_candidates(&self, pt: PieceType, tx: usize, ty: usize) -> (r: Vec<(usize, usize)>)
        requires
            self@.wf(),
            tx < 8 && ty < 8,
        ensures
            r@ == candidates(self@, pt, tx as int, ty as int, 64),
    {
        let mut found: Vec<(usize, usize)> = Vec::new();
        let mut k: usize = 0;
        while k < 64
            invariant
                self@.wf(),
                tx < 8 && ty < 8,
                k <= 64,
                found@ == candidates(self@, pt, tx as int, ty as int, k as int),
            decreases 64 - k,
        {
            let x = k % 8;
            let y = k / 8;
            if let Some(p) = self.get_piece(x, y) {
                if p.color == *self.get_player_turn() && p.piece_type == pt && p.check_move(x, y, tx, ty)
                    != MoveType::Illegal {
                    found.push((x, y));
                }
            }
            k = k + 1;
        }
        found
    }

    /// Reads a move in algebraic notation for the side to move: pawn moves
    /// ("e4", "exd5", with an optional promotion letter Q, R, N or B), piece
    /// moves ("Nf3", "Bxe5"), and castling ("O-O", "O-O-O"). A piece move
    /// that more than one piece could make is rejected as ambiguous.
    pub fn parse_algebraic(&self, move_str: &str) -> (r: Result<Move, MoveError>)
        requires
            self@.wf(),
        ensures
            r == parse_algebraic(self@, trim(move_str@)),
    {
        let raw = chars_of(move_str);
        let t = trim_chars(&raw);
        if t.len() < 2 {
            return Err(MoveError::IllegalMove);
        }
        let c0 = t[0];
        let pt = match PieceType::try_from_char(c0) {
            Some(p) => p,
            None => if c0 == 'O' {
                PieceType::King
            } else if 'a' <= c0 && c0 <= 'h' {
                PieceType::Pawn
            } else {
                return Err(MoveError::IllegalMove);
            },
        };
        let white = *self.get_player_turn() == Color::White;
        let rank: usize = if white { 0 } else { 7 };
        if pt == PieceType::King && is_castle_text(&t, false) {
            return Ok(Move::new(4, rank, 6, rank, PieceType::King, None));
        } else if pt == PieceType::King && is_castle_text(&t, true) {
            return Ok(Move::new(4, rank, 2, rank, PieceType::King, None));
        }
        if pt == PieceType::Pawn {
            let promo = promotion_letter(t[t.len() - 1]);
            if t[1] == 'x' {
                if t.len() < 4 {
                    return Err(MoveError::IllegalMove);
                }
                let (to_x, to_y) = match square_at(&t, 2) {
                    Some(sq) => sq,
                    None => return Err(MoveError::IllegalMove),
                };
                if !('a' <= c0 && c0 <= 'h') || white && to_y == 0 || !white && to_y == 7 {
                    return Err(MoveError::IllegalMove);
                }
                let from_x = (c0 as u32 - 'a' as u32) as usize;
                if white && to_y == 0 || !white && to_y == 7 {
                    return Err(MoveError::IllegalMove);
                }
                let from_y = if white { to_y - 1 } else { to_y + 1 };
                return Ok(Move::new(from_x, from_y, to_x, to_y, PieceType::Pawn, promo));
            }
            let (to_x, to_y) = match square_at(&t, 0) {
                Some(sq) => sq,
                None => return Err(MoveError::IllegalMove),
            };
            if white && to_y == 0 || !white && to_y == 7 {
                return Err(MoveError::IllegalMove);
            }
            let one = if white { to_y - 1 } else { to_y + 1 };
            if self.get_piece(to_x, one).is_some() {
                return Ok(Move::new(to_x, one, to_x, to_y, PieceType::Pawn, promo));
            }
            if white && to_y < 2 || !white && to_y > 5 {
                return Err(MoveError::IllegalMove);
            }
            let two = if white { to_y - 2 } else { to_y + 2 };
            return Ok(Move::new(to_x, two, to_x, to_y, PieceType::Pawn, promo));
        }
        let xi = find_x_exec(&t);
        let sq = if xi < t.len() {
            if t.len() - xi >= 3 {
                square_at(&t, xi + 1)
            } else {
                None
            }
        } else {
            if t.len() >= 3 {
                square_at(&t, 1)
            } else {
                None
            }
        };
        let (to_x, to_y) = match sq {
            Some(s) => s,
            None => return Err(MoveError::IllegalMove),
        };
        let found = self.find_candidates(pt, to_x, to_y);
        if found.len() != 1 {
            return Err(MoveError::IllegalMove);
        }
        let (from_x, from_y) = found[0];
        Ok(Move::new(from_x, from_y, to_x, to_y, pt, None))
    }

    /// Reads a move in long algebraic notation ("e2e4", "e7e8q") after
    /// trimming whitespace; the moving kind is that of the piece on the
    /// source square.
    pub fn parse_long_algebraic(&self, text: &Vec<char>) -> (r: Option<Move>)
        requires
            self@.wf(),
        ensures
            r == parse_long(self@, trim(text@)),
    {
        let t = trim_chars(text);
        if t.len() != 4 && t.len() != 5 {
            return None;
        }
        let from = square_at(&t, 0);
        let to = square_at(&t, 2);
        match (from, to) {
            (Some((fx, fy)), Some((tx, ty))) => {
                let promo = if t.len() == 5 {
                    let c = t[4];
                    let upper = if 'a' <= c && c <= 'z' { ((c as u8) - 32) as char } else { c };
                    match PieceType::try_from_char(upper) {
                        Some(p) => Some(p),
                        None => return None,
                    }
                } else {
                    None
                };
                match self.get_piece(fx, fy) {
                    Some(p) => Some(Move::new(fx, fy, tx, ty, p.piece_type, promo)),
                    None => None,
                }
            },
            _ => None,
        }
    }

    /// Applies a move given in algebraic notation. Text that names no move
    /// is rejected with `IllegalMove`; otherwise the move is applied as
    /// `move_piece` applies it. A rejected move leaves the board unchanged.
    pub fn algebraic_move(&mut self, move_str: &str) -> (r: Result<(), MoveError>)
        requires
            old(self)@.wf(),
        ensures
            final(self)@.wf(),
            match parse_algebraic(old(self)@, trim(move_str@)) {
                Err(e) => r == Err::<(), MoveError>(e) && final(self)@ == old(self)@,
                Ok(mv) => match move_outcome(old(self)@, mv) {
                    Ok(b) => r == Ok::<(), MoveError>(()) && final(self)@ == b,
                    Err(e) => r == Err::<(), MoveError>(e) && final(self)@ == old(self)@,
                },
            },
    {
        match self.parse_algebraic(move_str) {
            Err(e) => Err(e),
            Ok(mv) => self.move_piece(mv),
        }
    }
}

} // verus!
