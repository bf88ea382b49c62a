//! The board: the position model and everything that reads or changes it.
use vstd::prelude::*;
use crate::chess_move::Move;
use crate::color::Color;
use crate::move_error::MoveError;
use crate::move_type::MoveType;
use crate::piece::{Piece, move_kind};
use crate::piece_type::PieceType;
use crate::rules::{
    BoardModel, on_board, cell, first_on_ray, ray_measure, is_piece, ray_hits, attacked, in_check, clear_walk,
    path_clear, own_piece, sign, dist, castle_allowed, precheck, arriving, moved_grid, castle_grid, committed,
    kings_after, move_outcome,
};

verus! {

/// A chess position: the 8x8 grid, side to move, castling rights,
/// en-passant target, clocks, and the cached king squares.
#[derive(Debug)]
pub struct Board {
    squares: Vec<Option<Piece>>,
    move_number: u32,
    player_turn: Color,
    white_can_castle_king: bool,
    white_can_castle_queen: bool,
    black_can_castle_king: bool,
    black_can_castle_queen: bool,
    en_passant: Option<(usize, usize)>,
    halfmove: u32,
    white_king_position: (usize, usize),
    black_king_position: (usize, usize),
}

impl View for Board {
    type V = BoardModel;

    closed spec fn view(&self) -> BoardModel {
        BoardModel {
            grid: self.squares@,
            turn: self.player_turn,
            wk_castle: self.white_can_castle_king,
            wq_castle: self.white_can_castle_queen,
            bk_castle: self.black_can_castle_king,
            bq_castle: self.black_can_castle_queen,
            en_passant: self.en_passant,
            halfmove: self.halfmove,
            fullmove: self.move_number,
            white_king: self.white_king_position,
            black_king: self.black_king_position,
        }
    }
}

fn index(x: usize, y: usize) -> (r: usize)
    requires
        x < 8 && y < 8,
    ensures
        r as int == cell(x as int, y as int),
        r < 64,
{
    y * 8 + x
}

impl Board {
    /// An empty board: no pieces, White to move, all castling rights set,
    /// no en-passant target, halfmove clock 0, fullmove number 1.
    pub fn new() -> (r: Board)
        ensures
            r@.wf(),
            r@.grid == Seq::new(64, |i: int| None::<Piece>),
            r@.turn == Color::White,
            r@.wk_castle && r@.wq_castle && r@.bk_castle && r@.bq_castle,
            r@.en_passant.is_none(),
            r@.halfmove == 0,
            r@.fullmove == 1,
            r@.white_king == (0usize, 0usize),
            r@.black_king == (0usize, 0usize),
    {
        let mut squares: Vec<Option<Piece>> = Vec::new();
        let mut i: usize = 0;
        while i < 64
            invariant
                i <= 64,
                squares@ == Seq::new(i as nat, |j: int| None::<Piece>),
            decreases 64 - i,
        {
            squares.push(None);
            i = i + 1;
            assert(squares@ =~= Seq::new(i as nat, |j: int| None::<Piece>));
        }
        Board {
            squares,
            move_number: 1,
            player_turn: Color::White,
            white_can_castle_king: true,
            white_can_castle_queen: true,
            black_can_castle_king: true,
            black_can_castle_queen: true,
            en_passant: None,
            halfmove: 0,
            white_king_position: (0, 0),
            black_king_position: (0, 0),
        }
    }

    /// A copy of this board.
    pub fn duplicate(&self) -> (r: Board)
        requires
            self@.wf(),
        ensures
            r@ == self@,
    {
        let mut squares: Vec<Option<Piece>> = Vec::new();
        let mut i: usize = 0;
        while i < 64
            invariant
                i <= 64,
                self@.wf(),
                squares@ == self.squares@.subrange(0, i as int),
            decreases 64 - i,
        {
            squares.push(self.squares[i]);
            i = i + 1;
            assert(squares@ =~= self.squares@.subrange(0, i as int));
        }
        assert(squares@ =~= self.squares@);
        Board {
            squares,
            move_number: self.move_number,
            player_turn: self.player_turn,
            white_can_castle_king: self.white_can_castle_king,
            white_can_castle_queen: self.white_can_castle_queen,
            black_can_castle_king: self.black_can_castle_king,
            black_can_castle_queen: self.black_can_castle_queen,
            en_passant: self.en_passant,
            halfmove: self.halfmove,
            white_king_position: self.white_king_position,
            black_king_position: self.black_king_position,
        }
    }

    /// The grid as eight ranks of eight cells, rank 1 first: `[y][x]`.
    pub fn get_squares(&self) -> (r: Vec<Vec<Option<Piece>>>)
        requires
            self@.wf(),
        ensures
            r@.len() == 8,
            forall|y: int| 0 <= y < 8 ==> #[trigger] r@[y]@.len() == 8,
            forall|x: int, y: int| 0 <= x < 8 && 0 <= y < 8 ==> #[trigger] r@[y]@[x] == self@.at(x, y),
    {
        let mut rows: Vec<Vec<Option<Piece>>> = Vec::new();
        let mut y: usize = 0;
        while y < 8
            invariant
                y <= 8,
                self@.wf(),
                rows@.len() == y,
                forall|j: int| 0 <= j < y ==> #[trigger] rows@[j]@.len() == 8,
                forall|x: int, j: int| 0 <= x < 8 && 0 <= j < y ==> #[trigger] rows@[j]@[x] == self@.at(x, j),
            decreases 8 - y,
        {
            let mut row: Vec<Option<Piece>> = Vec::new();
            let mut x: usize = 0;
            while x < 8
                invariant
                    x <= 8,
                    y < 8,
                    self@.wf(),
                    row@.len() == x,
                    forall|i: int| 0 <= i < x ==> #[trigger] row@[i] == self@.at(i, y as int),
                decreases 8 - x,
            {
                row.push(self.squares[index(x, y)]);
                x = x + 1;
            }
            rows.push(row);
            y = y + 1;
        }
        rows
    }

    /// The occupant of file `x`, rank `y`.
    pub fn get_piece(&self, x: usize, y: usize) -> (r: Option<Piece>)
        requires
            self@.wf(),
            x < 8 && y < 8,
        ensures
            r == self@.at(x as int, y as int),
    {
        self.squares[index(x, y)]
    }

    pub fn get_player_turn(&self) -> (r: &Color)
        ensures
            *r == self@.turn,
    {
        &self.player_turn
    }

    pub fn get_en_passant(&self) -> (r: Option<(usize, usize)>)
        ensures
            r == self@.en_passant,
    {
        self.en_passant
    }

    pub fn get_halfmove(&self) -> (r: u32)
        ensures
            r == self@.halfmove,
    {
        self.halfmove
    }

    pub fn get_move_number(&self) -> (r: u32)
        ensures
            r == self@.fullmove,
    {
        self.move_number
    }

    /// The castling rights in the order White king side, White queen side,
    /// Black king side, Black queen side.
    pub fn get_castling_rights(&self) -> (r: (bool, bool, bool, bool))
        ensures
            r == (self@.wk_castle, self@.wq_castle, self@.bk_castle, self@.bq_castle),
    {
        (self.white_can_castle_king, self.white_can_castle_queen, self.black_can_castle_king, self.black_can_castle_queen)
    }

    /// The cached king square of the given colour.
    pub fn get_king_position(&self, color: Color) -> (r: (usize, usize))
        ensures
            r == self@.king_of(color),
    {
        match color {
            Color::White => self.white_king_position,
            Color::Black => self.black_king_position,
        }
    }

    /// Moves whatever stands on the source square to the destination and
    /// returns what stood there. Nothing else is checked or updated.
    pub fn unchecked_move_piece(&mut self, from_x: usize, from_y: usize, to_x: usize, to_y: usize) -> (r: Option<Piece>)
        requires
            old(self)@.wf(),
            from_x < 8 && from_y < 8 && to_x < 8 && to_y < 8,
        ensures
            r == old(self)@.at(to_x as int, to_y as int),
            final(self)@ == old(self)@.with_grid(
                old(self)@.grid.update(cell(from_x as int, from_y as int), None).update(
                    cell(to_x as int, to_y as int),
                    old(self)@.at(from_x as int, from_y as int),
                ),
                old(self)@.white_king,
                old(self)@.black_king,
            ),
            final(self)@.wf(),
    {
        let f = index(from_x, from_y);
        let t = index(to_x, to_y);
        let piece = self.squares[f];
        let taken = self.squares[t];
        self.squares.set(f, None);
        self.squares.set(t, piece);
        taken
    }

    /// Is (x, y) on the board and occupied by a piece of colour `c` and kind `t`?
    fn piece_is(&self, x: i32, y: i32, c: Color, t: PieceType) -> (r: bool)
        requires
            self@.wf(),
        ensures
            r == is_piece(self@, x as int, y as int, c, t),
    {
        if 0 <= x && x < 8 && 0 <= y && y < 8 {
            match self.squares[index(x as usize, y as usize)] {
                Some(p) => p.color == c && p.piece_type == t,
                None => false,
            }
        } else {
            false
        }
    }

    /// The first occupied square met when walking from (x, y), exclusive,
    /// in steps of (dx, dy).
    fn first_piece_in_direction(&self, x: usize, y: usize, dx: i32, dy: i32) -> (r: Option<(usize, usize)>)
        requires
            self@.wf(),
            x < 8 && y < 8,
            -1 <= dx <= 1 && -1 <= dy <= 1,
        ensures
            match first_on_ray(self@, x as int, y as int, dx as int, dy as int) {
                Some(s) => r == Some((s.0 as usize, s.1 as usize)) && on_board(s.0, s.1),
                None => r.is_none(),
            },
    {
        if dx == 0 && dy == 0 {
            return None;
        }
        let mut cx: i32 = x as i32;
        let mut cy: i32 = y as i32;
        loop
            invariant
                self@.wf(),
                on_board(cx as int, cy as int),
                -1 <= dx <= 1 && -1 <= dy <= 1,
                !(dx == 0 && dy == 0),
                first_on_ray(self@, x as int, y as int, dx as int, dy as int) == first_on_ray(
                    self@,
                    cx as int,
                    cy as int,
                    dx as int,
                    dy as int,
                ),
            decreases ray_measure(cx as int, cy as int, dx as int, dy as int),
        {
            let nx = cx + dx;
            let ny = cy + dy;
            if nx < 0 || nx >= 8 || ny < 0 || ny >= 8 {
                return None;
            }
            if self.squares[index(nx as usize, ny as usize)].is_some() {
                return Some((nx as usize, ny as usize));
            }
            cx = nx;
            cy = ny;
        }
    }

    /// Does the first piece along the ray belong to `c` and have kind `t1` or `t2`?
    fn ray_hits(&self, x: usize, y: usize, dx: i32, dy: i32, c: Color, t1: PieceType, t2: PieceType) -> (r: bool)
        requires
            self@.wf(),
            x < 8 && y < 8,
            -1 <= dx <= 1 && -1 <= dy <= 1,
        ensures
            r == ray_hits(self@, x as int, y as int, dx as int, dy as int, c, t1, t2),
    {
        match self.first_piece_in_direction(x, y, dx, dy) {
            Some((px, py)) => self.piece_is(px as i32, py as i32, c, t1) || self.piece_is(px as i32, py as i32, c, t2),
            None => false,
        }
    }

    /// Is square (x, y) attacked by a piece of colour `color`?
    pub fn is_square_attacked(&self, x: usize, y: usize, color: Color) -> (r: bool)
        requires
            self@.wf(),
            x < 8 && y < 8,
        ensures
            r == attacked(self@, x as int, y as int, color),
    {
        reveal(attacked);
        let xi = x as i32;
        let yi = y as i32;
        // pawns attack diagonally forward, so they stand one rank behind
        let py: i32 = if color == Color::White { yi - 1 } else { yi + 1 };
        let pawn = PieceType::Pawn;
        if self.piece_is(xi - 1, py, color, pawn) || self.piece_is(xi + 1, py, color, pawn) {
            return true;
        }
        let k = PieceType::King;
        if self.piece_is(xi + 1, yi, color, k) || self.piece_is(xi - 1, yi, color, k) || self.piece_is(xi, yi + 1, color, k)
            || self.piece_is(xi, yi - 1, color, k) || self.piece_is(xi + 1, yi + 1, color, k) || self.piece_is(
            xi - 1,
            yi + 1,
            color,
            k,
        ) || self.piece_is(xi + 1, yi - 1, color, k) || self.piece_is(xi - 1, yi - 1, color, k) {
            return true;
        }
        let r = PieceType::Rook;
        let q = PieceType::Queen;
        if self.ray_hits(x, y, 1, 0, color, r, q) || self.ray_hits(x, y, -1, 0, color, r, q) || self.ray_hits(
            x,
            y,
            0,
            1,
            color,
            r,
            q,
        ) || self.ray_hits(x, y, 0, -1, color, r, q) {
            return true;
        }
        let b = PieceType::Bishop;
        if self.ray_hits(x, y, 1, 1, color, b, q) || self.ray_hits(x, y, -1, 1, color, b, q) || self.ray_hits(
            x,
            y,
            1,
            -1,
            color,
            b,
            q,
        ) || self.ray_hits(x, y, -1, -1, color, b, q) {
            return true;
        }
        let n = PieceType::Knight;
        self.piece_is(xi + 1, yi + 2, color, n) || self.piece_is(xi + 2, yi + 1, color, n) || self.piece_is(
            xi - 1,
            yi + 2,
            color,
            n,
        ) || self.piece_is(xi - 2, yi + 1, color, n) || self.piece_is(xi + 1, yi - 2, color, n) || self.piece_is(
            xi + 2,
            yi - 1,
            color,
            n,
        ) || self.piece_is(xi - 1, yi - 2, color, n) || self.piece_is(xi - 2, yi - 1, color, n)
    }

    /// Is the king of the side to move attacked by the other side?
    pub fn king_in_check(&self) -> (r: bool)
        requires
            self@.wf(),
        ensures
            r == in_check(self@),
    {
        match self.player_turn {
            Color::White => self.is_square_attacked(self.white_king_position.0, self.white_king_position.1, Color::Black),
            Color::Black => self.is_square_attacked(self.black_king_position.0, self.black_king_position.1, Color::White),
        }
    }

    /// Are the squares strictly between the two squares empty, and does the
    /// destination not hold a piece of the side to move?
    fn check_straight_move(&self, from_x: usize, from_y: usize, to_x: usize, to_y: usize) -> (r: bool)
        requires
            self@.wf(),
            from_x < 8 && from_y < 8 && to_x < 8 && to_y < 8,
        ensures
            r == (path_clear(self@, from_x as int, from_y as int, to_x as int, to_y as int) && !own_piece(
                self@,
                to_x as int,
                to_y as int,
            )),
    {
        let fx = from_x as i32;
        let fy = from_y as i32;
        let tx = to_x as i32;
        let ty = to_y as i32;
        let sx: i32 = if tx > fx { 1 } else if tx < fx { -1 } else { 0 };
        let sy: i32 = if ty > fy { 1 } else if ty < fy { -1 } else { 0 };
        let ax: i32 = if tx >= fx { tx - fx } else { fx - tx };
        let ay: i32 = if ty >= fy { ty - fy } else { fy - ty };
        let n: i32 = if ax >= ay { ax } else { ay };
        let mut k: i32 = if n > 0 { n - 1 } else { 0 };
        let mut x: i32 = fx + sx;
        let mut y: i32 = fy + sy;
        assert(sx as int == sign(tx - fx) && sy as int == sign(ty - fy));
        assert(n as int == dist(fx as int, fy as int, tx as int, ty as int));
        while k > 0
            invariant
                self@.wf(),
                0 <= k <= 7,
                -16 + k <= x <= 16 - k,
                -16 + k <= y <= 16 - k,
                -1 <= sx <= 1 && -1 <= sy <= 1,
                path_clear(self@, from_x as int, from_y as int, to_x as int, to_y as int) == clear_walk(
                    self@,
                    x as int,
                    y as int,
                    sx as int,
                    sy as int,
                    k as nat,
                ),
            decreases k,
        {
            if 0 <= x && x < 8 && 0 <= y && y < 8 && self.squares[index(x as usize, y as usize)].is_some() {
                assert(!clear_walk(self@, x as int, y as int, sx as int, sy as int, k as nat));
                return false;
            }
            x = x + sx;
            y = y + sy;
            k = k - 1;
        }
        match self.squares[index(to_x, to_y)] {
            Some(piece) => piece.color != self.player_turn,
            None => true,
        }
    }

    fn is_empty(&self, x: usize, y: usize) -> (r: bool)
        requires
            self@.wf(),
            x < 8 && y < 8,
        ensures
            r == self@.at(x as int, y as int).is_none(),
    {
        self.squares[index(x, y)].is_none()
    }

    /// May the side to move castle on the king side?
    fn check_kingside_castle(&self) -> (r: bool)
        requires
            self@.wf(),
        ensures
            r == castle_allowed(self@, true),
    {
        let c = self.player_turn;
        let o = c.opposite();
        let rank: usize = if c == Color::White { 0 } else { 7 };
        let right = if c == Color::White { self.white_can_castle_king } else { self.black_can_castle_king };
        if !right {
            return false;
        }
        if self.is_square_attacked(4, rank, o) || self.is_square_attacked(5, rank, o) || self.is_square_attacked(6, rank, o) {
            return false;
        }
        if !self.is_empty(5, rank) || !self.is_empty(6, rank) {
            return false;
        }
        match self.squares[index(7, rank)] {
            Some(piece) => piece.piece_type == PieceType::Rook && piece.color == c,
            None => false,
        }
    }

    /// May the side to move castle on the queen side?
    fn check_queenside_castle(&self) -> (r: bool)
        requires
            self@.wf(),
        ensures
            r == castle_allowed(self@, false),
    {
        let c = self.player_turn;
        let o = c.opposite();
        let rank: usize = if c == Color::White { 0 } else { 7 };
        let right = if c == Color::White { self.white_can_castle_queen } else { self.black_can_castle_queen };
        if !right {
            return false;
        }
        if self.is_square_attacked(4, rank, o) || self.is_square_attacked(3, rank, o) || self.is_square_attacked(2, rank, o) {
            return false;
        }
        if !self.is_empty(3, rank) || !self.is_empty(2, rank) || !self.is_empty(1, rank) {
            return false;
        }
        match self.squares[index(0, rank)] {
            Some(piece) => piece.piece_type == PieceType::Rook && piece.color == c,
            None => false,
        }
    }

    /// The check a move of class `kind` must pass before the board is touched.
    fn precheck(&self, mv: &Move, p: Piece, kind: MoveType) -> (r: Option<MoveError>)
        requires
            self@.wf(),
            mv.from_x < 8 && mv.from_y < 8,
            p.color == self@.turn,
            kind == move_kind(p, mv.from_x as int, mv.from_y as int, mv.to_x as int, mv.to_y as int),
        ensures
            r == precheck(self@, *mv, kind),
    {
        match kind {
            MoveType::Illegal => Some(MoveError::IllegalMove),
            MoveType::Pawn1 => if !self.is_empty(mv.to_x, mv.to_y) {
                Some(MoveError::MoveBlocked)
            } else {
                None
            },
            MoveType::Pawn2 => {
                let middle_y = if self.player_turn == Color::White { mv.from_y + 1 } else { mv.from_y - 1 };
                if !self.is_empty(mv.to_x, mv.to_y) || !self.is_empty(mv.from_x, middle_y) {
                    Some(MoveError::MoveBlocked)
                } else {
                    None
                }
            },
            MoveType::PawnCapture => match self.squares[index(mv.to_x, mv.to_y)] {
                Some(q) => if q.color == self.player_turn {
                    Some(MoveError::CannotCaptureOwnPiece)
                } else {
                    None
                },
                None => if self.en_passant == Some((mv.to_x, mv.to_y)) {
                    None
                } else {
                    Some(MoveError::IllegalMove)
                },
            },
            MoveType::Rook | MoveType::Bishop | MoveType::Queen => if self.check_straight_move(
                mv.from_x,
                mv.from_y,
                mv.to_x,
                mv.to_y,
            ) {
                None
            } else {
                Some(MoveError::IllegalMove)
            },
            MoveType::Knight | MoveType::KingNormal => match self.squares[index(mv.to_x, mv.to_y)] {
                Some(q) => if q.color == self.player_turn {
                    Some(MoveError::CannotCaptureOwnPiece)
                } else {
                    None
                },
                None => None,
            },
            MoveType::KingCastleKingSide => if self.check_kingside_castle() {
                None
            } else {
                Some(MoveError::IllegalMove)
            },
            MoveType::KingCastleQueenSide => if self.check_queenside_castle() {
                None
            } else {
                Some(MoveError::IllegalMove)
            },
        }
    }

    /// Moves the king and the rook of the side to move for a castle.
    fn castle(&mut self, mv: &Move, king_side: bool)
        requires
            old(self)@.wf(),
            mv.to_x < 8 && mv.to_y < 8,
        ensures
            final(self)@.wf(),
            final(self)@ == old(self)@.with_grid(
                castle_grid(old(self)@, king_side),
                kings_after(old(self)@, MoveType::KingNormal, mv.to_x, mv.to_y).0,
                kings_after(old(self)@, MoveType::KingNormal, mv.to_x, mv.to_y).1,
            ),
    {
        let c = self.player_turn;
        let rank: usize = if c == Color::White { 0 } else { 7 };
        let king = Some(Piece::new(PieceType::King, c));
        let rook = Some(Piece::new(PieceType::Rook, c));
        if king_side {
            self.squares.set(index(4, rank), None);
            self.squares.set(index(6, rank), king);
            self.squares.set(index(7, rank), None);
            self.squares.set(index(5, rank), rook);
        } else {
            self.squares.set(index(4, rank), None);
            self.squares.set(index(2, rank), king);
            self.squares.set(index(0, rank), None);
            self.squares.set(index(3, rank), rook);
        }
        match c {
            Color::White => self.white_king_position = (mv.to_x, mv.to_y),
            Color::Black => self.black_king_position = (mv.to_x, mv.to_y),
        }
    }

    /// Places a move that is not a castle on the grid; keeps it when the
    /// mover's king is then safe, and restores the board otherwise.
    #[verifier::rlimit(50)]
    fn try_place(&mut self, mv: &Move, p: Piece, kind: MoveType) -> (ok: bool)
        requires
            old(self)@.wf(),
            mv.from_x < 8 && mv.from_y < 8,
            old(self)@.at(mv.from_x as int, mv.from_y as int) == Some(p),
            p.color == old(self)@.turn,
            kind == move_kind(p, mv.from_x as int, mv.from_y as int, mv.to_x as int, mv.to_y as int),
            kind != MoveType::Illegal,
            kind != MoveType::KingCastleKingSide,
            kind != MoveType::KingCastleQueenSide,
        ensures
            final(self)@.wf(),
            ({
                let ks = kings_after(old(self)@, kind, mv.to_x, mv.to_y);
                let t = old(self)@.with_grid(moved_grid(old(self)@, *mv, p, kind), ks.0, ks.1);
                &&& ok == !in_check(t)
                &&& ok ==> final(self)@ == t
                &&& !ok ==> final(self)@ == old(self)@
            }),
    {
        let f = index(mv.from_x, mv.from_y);
        let t = index(mv.to_x, mv.to_y);
        let old_to = self.squares[t];
        let en_passant = kind == MoveType::PawnCapture && old_to.is_none();
        // the pawn taken en passant stands beside the mover, behind the target square
        let mut v: usize = 0;
        let mut old_victim: Option<Piece> = None;
        if en_passant {
            let victim_y = if self.player_turn == Color::White { mv.to_y - 1 } else { mv.to_y + 1 };
            v = index(mv.to_x, victim_y);
            old_victim = self.squares[v];
        }
        let arrives = if p.piece_type == PieceType::Pawn && (mv.to_y == 0 || mv.to_y == 7) {
            match mv.promotion {
                Some(t) => Piece::new(t, p.color),
                None => Piece::new(PieceType::Queen, p.color),
            }
        } else {
            p
        };
        assert(arrives == arriving(p, *mv));
        let ghost pre = self@;
        self.squares.set(f, None);
        self.squares.set(t, Some(arrives));
        if en_passant {
            self.squares.set(v, None);
        }
        assert(self.squares@ =~= moved_grid(pre, *mv, p, kind));
        let old_white_king = self.white_king_position;
        let old_black_king = self.black_king_position;
        if kind == MoveType::KingNormal {
            match self.player_turn {
                Color::White => self.white_king_position = (mv.to_x, mv.to_y),
                Color::Black => self.black_king_position = (mv.to_x, mv.to_y),
            }
        }
        if self.king_in_check() {
            if en_passant {
                self.squares.set(v, old_victim);
            }
            self.squares.set(t, old_to);
            self.squares.set(f, Some(p));
            self.white_king_position = old_white_king;
            self.black_king_position = old_black_king;
            assert(self.squares@ =~= pre.grid);
            return false;
        }
        true
    }

    /// Records an accepted move: castling rights, en-passant target, clocks
    /// and the side to move.
    fn commit(&mut self, mv: &Move, kind: MoveType, capture: bool)
        requires
            old(self)@.wf(),
            mv.to_x < 8,
        ensures
            final(self)@.wf(),
            final(self)@ == committed(
                old(self)@,
                old(self)@.grid,
                old(self)@.white_king,
                old(self)@.black_king,
                *mv,
                kind,
                capture,
            ),
    {
        let white = self.player_turn == Color::White;
        let king_moved = kind == MoveType::KingNormal || kind == MoveType::KingCastleKingSide || kind
            == MoveType::KingCastleQueenSide;
        if king_moved {
            if white {
                self.white_can_castle_king = false;
                self.white_can_castle_queen = false;
            } else {
                self.black_can_castle_king = false;
                self.black_can_castle_queen = false;
            }
        }
        if (mv.from_x == 7 && mv.from_y == 0) || (mv.to_x == 7 && mv.to_y == 0) {
            self.white_can_castle_king = false;
        }
        if (mv.from_x == 0 && mv.from_y == 0) || (mv.to_x == 0 && mv.to_y == 0) {
            self.white_can_castle_queen = false;
        }
        if (mv.from_x == 7 && mv.from_y == 7) || (mv.to_x == 7 && mv.to_y == 7) {
            self.black_can_castle_king = false;
        }
        if (mv.from_x == 0 && mv.from_y == 7) || (mv.to_x == 0 && mv.to_y == 7) {
            self.black_can_castle_queen = false;
        }
        self.en_passant = if kind == MoveType::Pawn2 {
            Some((mv.to_x, if white { 2 } else { 5 }))
        } else {
            None
        };
        let pawn_moved = kind == MoveType::Pawn1 || kind == MoveType::Pawn2 || kind == MoveType::PawnCapture;
        if pawn_moved || capture {
            self.halfmove = 0;
        } else if self.halfmove < u32::MAX {
            self.halfmove = self.halfmove + 1;
        }
        if white {
            self.player_turn = Color::Black;
        } else {
            if self.move_number < u32::MAX {
                self.move_number = self.move_number + 1;
            }
            self.player_turn = Color::White;
        }
    }

    /// Applies a move. An accepted move updates the grid, castling rights,
    /// en-passant target, clocks, king squares and side to move; a rejected
    /// move leaves the board exactly as it was and reports why.
    pub fn move_piece(&mut self, mv: Move) -> (r: Result<(), MoveError>)
        requires
            old(self)@.wf(),
        ensures
            final(self)@.wf(),
            match move_outcome(old(self)@, mv) {
                Ok(b) => r == Ok::<(), MoveError>(()) && final(self)@ == b,
                Err(e) => r == Err::<(), MoveError>(e) && final(self)@ == old(self)@,
            },
    {
        if mv.from_x > 7 || mv.from_y > 7 {
            return Err(MoveError::NoPieceOnSourceSquare);
        }
        let p = match self.squares[index(mv.from_x, mv.from_y)] {
            Some(p) => p,
            None => return Err(MoveError::NoPieceOnSourceSquare),
        };
        if mv.from_x == mv.to_x && mv.from_y == mv.to_y {
            return Err(MoveError::MustMovePiece);
        }
        if p.color != self.player_turn {
            return Err(MoveError::PieceWrongColor);
        }
        let kind = p.check_move(mv.from_x, mv.from_y, mv.to_x, mv.to_y);
        if let Some(e) = self.precheck(&mv, p, kind) {
            return Err(e);
        }
        let ghost pre = self@;
        let capture;
        if kind == MoveType::KingCastleKingSide || kind == MoveType::KingCastleQueenSide {
            self.castle(&mv, kind == MoveType::KingCastleKingSide);
            capture = false;
        } else {
            capture = !self.is_empty(mv.to_x, mv.to_y) || kind == MoveType::PawnCapture;
            if !self.try_place(&mv, p, kind) {
                return Err(MoveError::KingInCheck);
            }
        }
        self.commit(&mv, kind, capture);
        assert(self@ == committed(
            pre,
            self@.grid,
            self@.white_king,
            self@.black_king,
            mv,
            kind,
            capture,
        ));
        Ok(())
    }

    /// May the side to move castle on the given wing?
    pub fn can_castle(&self, king_side: bool) -> (r: bool)
        requires
            self@.wf(),
        ensures
            r == castle_allowed(self@, king_side),
    {
        if king_side {
            self.check_kingside_castle()
        } else {
            self.check_queenside_castle()
        }
    }

    /// Assembles a board from its parts.
    pub(crate) fn from_parts(
        squares: Vec<Option<Piece>>,
        player_turn: Color,
        castling: (bool, bool, bool, bool),
        en_passant: Option<(usize, usize)>,
        halfmove: u32,
        move_number: u32,
        white_king_position: (usize, usize),
        black_king_position: (usize, usize),
    ) -> (r: Board)
        ensures
            r@ == (BoardModel {
                grid: squares@,
                turn: player_turn,
                wk_castle: castling.0,
                wq_castle: castling.1,
                bk_castle: castling.2,
                bq_castle: castling.3,
                en_passant,
                halfmove,
                fullmove: move_number,
                white_king: white_king_position,
                black_king: black_king_position,
            }),
    {
        Board {
            squares,
            move_number,
            player_turn,
            white_can_castle_king: castling.0,
            white_can_castle_queen: castling.1,
            black_can_castle_king: castling.2,
            black_can_castle_queen: castling.3,
            en_passant,
            halfmove,
            white_king_position,
            black_king_position,
        }
    }

    /// The occupant of cell `k`, counting row-major from a1.
    pub fn cell_at(&self, k: usize) -> (r: Option<Piece>)
        requires
            self@.wf(),
            k < 64,
        ensures
            r == self@.grid[k as int],
    {
        self.squares[k]
    }
}

} // verus!
