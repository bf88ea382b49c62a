//! The mathematical model of a chess position and the rules over it.
use vstd::prelude::*;
use crate::chess_move::Move;
use crate::color::Color;
use crate::move_error::MoveError;
use crate::move_type::MoveType;
use crate::piece::{Piece, move_kind, pawn_dir, home_rank};
use crate::piece_type::{PieceType, centipawns};

verus! {

/// A chess position as a mathematical value. The grid holds 64 cells, rank
/// by rank from rank 1 (index `y * 8 + x` for file `x` and rank `y`).
pub struct BoardModel {
    pub grid: Seq<Option<Piece>>,
    pub turn: Color,
    pub wk_castle: bool,
    pub wq_castle: bool,
    pub bk_castle: bool,
    pub bq_castle: bool,
    pub en_passant: Option<(usize, usize)>,
    pub halfmove: u32,
    pub fullmove: u32,
    pub white_king: (usize, usize),
    pub black_king: (usize, usize),
}

pub open spec fn on_board(x: int, y: int) -> bool {
    0 <= x < 8 && 0 <= y < 8
}

pub open spec fn cell(x: int, y: int) -> int {
    y * 8 + x
}

pub open spec fn sat_inc(n: u32) -> u32 {
    if n < u32::MAX { (n + 1) as u32 } else { n }
}

impl BoardModel {
    /// Well-formed: 64 cells, and every stored coordinate lies on the board.
    pub open spec fn wf(self) -> bool {
        &&& self.grid.len() == 64
        &&& self.white_king.0 < 8 && self.white_king.1 < 8
        &&& self.black_king.0 < 8 && self.black_king.1 < 8
        &&& (self.en_passant matches Some(e) ==> e.0 < 8 && e.1 < 8)
    }

    /// The occupant of (x, y); off the board nothing stands.
    pub open spec fn at(self, x: int, y: int) -> Option<Piece> {
        if on_board(x, y) {
            self.grid[cell(x, y)]
        } else {
            None
        }
    }

    pub open spec fn king_of(self, c: Color) -> (usize, usize) {
        if c == Color::White { self.white_king } else { self.black_king }
    }

    /// The same position with another grid and other king squares.
    pub open spec fn with_grid(self, g: Seq<Option<Piece>>, wk: (usize, usize), bk: (usize, usize)) -> BoardModel {
        BoardModel {
            grid: g,
            turn: self.turn,
            wk_castle: self.wk_castle,
            wq_castle: self.wq_castle,
            bk_castle: self.bk_castle,
            bq_castle: self.bq_castle,
            en_passant: self.en_passant,
            halfmove: self.halfmove,
            fullmove: self.fullmove,
            white_king: wk,
            black_king: bk,
        }
    }

    /// The cached king squares hold the kings.
    pub open spec fn kings_placed(self) -> bool {
        &&& self.at(self.white_king.0 as int, self.white_king.1 as int) == Some(Piece { piece_type: PieceType::King, color: Color::White })
        &&& self.at(self.black_king.0 as int, self.black_king.1 as int) == Some(Piece { piece_type: PieceType::King, color: Color::Black })
    }
}

/// A measure that shrinks with each step along a ray that stays on the board.
pub open spec fn ray_measure(x: int, y: int, dx: int, dy: int) -> int {
    if dx > 0 {
        8 - x
    } else if dx < 0 {
        x + 1
    } else if dy > 0 {
        8 - y
    } else if dy < 0 {
        y + 1
    } else {
        0
    }
}

/// The first occupied square met when walking from (x, y), exclusive, in
/// steps of (dx, dy).
pub open spec fn first_on_ray(b: BoardModel, x: int, y: int, dx: int, dy: int) -> Option<(int, int)>
    decreases ray_measure(x, y, dx, dy),
{
    let nx = x + dx;
    let ny = y + dy;
    if (dx == 0 && dy == 0) || !on_board(nx, ny) {
        None
    } else if b.at(nx, ny).is_some() {
        Some((nx, ny))
    } else {
        first_on_ray(b, nx, ny, dx, dy)
    }
}

pub open spec fn is_piece(b: BoardModel, x: int, y: int, c: Color, t: PieceType) -> bool {
    b.at(x, y) == Some(Piece { piece_type: t, color: c })
}

/// The first piece along the ray is of colour `c` and of kind `t1` or `t2`.
pub open spec fn ray_hits(b: BoardModel, x: int, y: int, dx: int, dy: int, c: Color, t1: PieceType, t2: PieceType) -> bool {
    match first_on_ray(b, x, y, dx, dy) {
        Some(s) => is_piece(b, s.0, s.1, c, t1) || is_piece(b, s.0, s.1, c, t2),
        None => false,
    }
}

pub open spec fn pawn_attacks(b: BoardModel, x: int, y: int, c: Color) -> bool {
    let py = y - pawn_dir(c);
    is_piece(b, x - 1, py, c, PieceType::Pawn) || is_piece(b, x + 1, py, c, PieceType::Pawn)
}

pub open spec fn king_attacks(b: BoardModel, x: int, y: int, c: Color) -> bool {
    let k = PieceType::King;
    ||| is_piece(b, x + 1, y, c, k)
    ||| is_piece(b, x - 1, y, c, k)
    ||| is_piece(b, x, y + 1, c, k)
    ||| is_piece(b, x, y - 1, c, k)
    ||| is_piece(b, x + 1, y + 1, c, k)
    ||| is_piece(b, x - 1, y + 1, c, k)
    ||| is_piece(b, x + 1, y - 1, c, k)
    ||| is_piece(b, x - 1, y - 1, c, k)
}

pub open spec fn knight_attacks(b: BoardModel, x: int, y: int, c: Color) -> bool {
    let n = PieceType::Knight;
    ||| is_piece(b, x + 1, y + 2, c, n)
    ||| is_piece(b, x + 2, y + 1, c, n)
    ||| is_piece(b, x - 1, y + 2, c, n)
    ||| is_piece(b, x - 2, y + 1, c, n)
    ||| is_piece(b, x + 1, y - 2, c, n)
    ||| is_piece(b, x + 2, y - 1, c, n)
    ||| is_piece(b, x - 1, y - 2, c, n)
    ||| is_piece(b, x - 2, y - 1, c, n)
}

pub open spec fn line_attacks(b: BoardModel, x: int, y: int, c: Color) -> bool {
    let r = PieceType::Rook;
    let q = PieceType::Queen;
    ||| ray_hits(b, x, y, 1, 0, c, r, q)
    ||| ray_hits(b, x, y, -1, 0, c, r, q)
    ||| ray_hits(b, x, y, 0, 1, c, r, q)
    ||| ray_hits(b, x, y, 0, -1, c, r, q)
}

pub open spec fn diagonal_attacks(b: BoardModel, x: int, y: int, c: Color) -> bool {
    let bi = PieceType::Bishop;
    let q = PieceType::Queen;
    ||| ray_hits(b, x, y, 1, 1, c, bi, q)
    ||| ray_hits(b, x, y, -1, 1, c, bi, q)
    ||| ray_hits(b, x, y, 1, -1, c, bi, q)
    ||| ray_hits(b, x, y, -1, -1, c, bi, q)
}

/// Square (x, y) is attacked by a piece of colour `c`: a pawn one step
/// diagonally behind it (from `c`'s point of view), an adjacent king, a knight
/// a knight's jump away, or the first piece along a rank, file or diagonal
/// being a rook/queen (rank, file) or bishop/queen (diagonal) of `c`.
#[verifier::opaque]
pub open spec fn attacked(b: BoardModel, x: int, y: int, c: Color) -> bool {
    ||| pawn_attacks(b, x, y, c)
    ||| king_attacks(b, x, y, c)
    ||| line_attacks(b, x, y, c)
    ||| diagonal_attacks(b, x, y, c)
    ||| knight_attacks(b, x, y, c)
}

/// The king of the side to move is attacked by the other side.
pub open spec fn in_check(b: BoardModel) -> bool {
    let k = b.king_of(b.turn);
    attacked(b, k.0 as int, k.1 as int, b.turn.spec_opposite())
}

/// The `n` squares from (x, y) on in steps of (sx, sy) are empty.
pub open spec fn clear_walk(b: BoardModel, x: int, y: int, sx: int, sy: int, n: nat) -> bool
    decreases n,
{
    n == 0 || (b.at(x, y).is_none() && clear_walk(b, x + sx, y + sy, sx, sy, (n - 1) as nat))
}

pub open spec fn sign(d: int) -> int {
    if d > 0 { 1 } else if d < 0 { -1 } else { 0 }
}

pub open spec fn dist(fx: int, fy: int, tx: int, ty: int) -> int {
    let ax = if tx >= fx { tx - fx } else { fx - tx };
    let ay = if ty >= fy { ty - fy } else { fy - ty };
    if ax >= ay { ax } else { ay }
}

/// Every square strictly between (fx, fy) and (tx, ty) on their common line
/// is empty.
pub open spec fn path_clear(b: BoardModel, fx: int, fy: int, tx: int, ty: int) -> bool {
    let sx = sign(tx - fx);
    let sy = sign(ty - fy);
    let d = dist(fx, fy, tx, ty);
    clear_walk(b, fx + sx, fy + sy, sx, sy, if d > 0 { (d - 1) as nat } else { 0 })
}

pub open spec fn own_piece(b: BoardModel, x: int, y: int) -> bool {
    match b.at(x, y) {
        Some(q) => q.color == b.turn,
        None => false,
    }
}

/// Castling of the side to move is allowed: the right is held, the king's
/// square, the square it crosses and its destination are not attacked, the
/// squares between king and rook are empty, and the rook stands in its corner.
pub open spec fn castle_allowed(b: BoardModel, king_side: bool) -> bool {
    let c = b.turn;
    let r = home_rank(c);
    let o = c.spec_opposite();
    let right = if c == Color::White {
        if king_side { b.wk_castle } else { b.wq_castle }
    } else {
        if king_side { b.bk_castle } else { b.bq_castle }
    };
    let rook = Some(Piece { piece_type: PieceType::Rook, color: c });
    if king_side {
        &&& right
        &&& !attacked(b, 4, r, o) && !attacked(b, 5, r, o) && !attacked(b, 6, r, o)
        &&& b.at(5, r).is_none() && b.at(6, r).is_none()
        &&& b.at(7, r) == rook
    } else {
        &&& right
        &&& !attacked(b, 4, r, o) && !attacked(b, 3, r, o) && !attacked(b, 2, r, o)
        &&& b.at(3, r).is_none() && b.at(2, r).is_none() && b.at(1, r).is_none()
        &&& b.at(0, r) == rook
    }
}

/// The check that a move of class `kind` must pass before the board is
/// touched; `None` when it passes.
pub open spec fn precheck(b: BoardModel, mv: Move, kind: MoveType) -> Option<MoveError> {
    let fx = mv.from_x as int;
    let fy = mv.from_y as int;
    let tx = mv.to_x as int;
    let ty = mv.to_y as int;
    match kind {
        MoveType::Illegal => Some(MoveError::IllegalMove),
        MoveType::Pawn1 => if b.at(tx, ty).is_some() { Some(MoveError::MoveBlocked) } else { None },
        MoveType::Pawn2 => if b.at(tx, ty).is_some() || b.at(fx, fy + pawn_dir(b.turn)).is_some() {
            Some(MoveError::MoveBlocked)
        } else {
            None
        },
        MoveType::PawnCapture => match b.at(tx, ty) {
            Some(q) => if q.color == b.turn { Some(MoveError::CannotCaptureOwnPiece) } else { None },
            None => if b.en_passant == Some((mv.to_x, mv.to_y)) { None } else { Some(MoveError::IllegalMove) },
        },
        MoveType::Rook | MoveType::Bishop | MoveType::Queen => if path_clear(b, fx, fy, tx, ty) && !own_piece(b, tx, ty) {
            None
        } else {
            Some(MoveError::IllegalMove)
        },
        MoveType::Knight | MoveType::KingNormal => if own_piece(b, tx, ty) {
            Some(MoveError::CannotCaptureOwnPiece)
        } else {
            None
        },
        MoveType::KingCastleKingSide => if castle_allowed(b, true) { None } else { Some(MoveError::IllegalMove) },
        MoveType::KingCastleQueenSide => if castle_allowed(b, false) { None } else { Some(MoveError::IllegalMove) },
    }
}

/// The piece that lands on the destination: a pawn reaching the last rank
/// becomes the promotion kind, a queen when none is given.
pub open spec fn arriving(p: Piece, mv: Move) -> Piece {
    if p.piece_type == PieceType::Pawn && (mv.to_y == 0 || mv.to_y == 7) {
        Piece {
            piece_type: match mv.promotion {
                Some(t) => t,
                None => PieceType::Queen,
            },
            color: p.color,
        }
    } else {
        p
    }
}

/// A pawn capture onto the empty en-passant target.
pub open spec fn is_en_passant(b: BoardModel, mv: Move, kind: MoveType) -> bool {
    kind == MoveType::PawnCapture && b.at(mv.to_x as int, mv.to_y as int).is_none()
}

/// The grid after a move that is not a castle.
pub open spec fn moved_grid(b: BoardModel, mv: Move, p: Piece, kind: MoveType) -> Seq<Option<Piece>> {
    let tx = mv.to_x as int;
    let ty = mv.to_y as int;
    let g = b.grid.update(cell(mv.from_x as int, mv.from_y as int), None).update(cell(tx, ty), Some(arriving(p, mv)));
    if is_en_passant(b, mv, kind) {
        g.update(cell(tx, ty - pawn_dir(b.turn)), None)
    } else {
        g
    }
}

/// The grid after castling: king from the e-file two squares toward the
/// rook, and the rook to the square the king crossed.
pub open spec fn castle_grid(b: BoardModel, king_side: bool) -> Seq<Option<Piece>> {
    let c = b.turn;
    let r = home_rank(c);
    let king = Some(Piece { piece_type: PieceType::King, color: c });
    let rook = Some(Piece { piece_type: PieceType::Rook, color: c });
    if king_side {
        b.grid.update(cell(4, r), None).update(cell(6, r), king).update(cell(7, r), None).update(cell(5, r), rook)
    } else {
        b.grid.update(cell(4, r), None).update(cell(2, r), king).update(cell(0, r), None).update(cell(3, r), rook)
    }
}

pub open spec fn touches(mv: Move, x: usize, y: usize) -> bool {
    (mv.from_x == x && mv.from_y == y) || (mv.to_x == x && mv.to_y == y)
}

pub open spec fn is_king_move(kind: MoveType) -> bool {
    kind == MoveType::KingNormal || kind == MoveType::KingCastleKingSide || kind == MoveType::KingCastleQueenSide
}

pub open spec fn is_pawn_move(kind: MoveType) -> bool {
    kind == MoveType::Pawn1 || kind == MoveType::Pawn2 || kind == MoveType::PawnCapture
}

/// The position after an accepted move: grid and king squares as given;
/// castling rights lost by a king move or by a move from or onto a corner;
/// en-passant target set only by a double pawn push; halfmove clock reset by
/// a pawn move or capture; side to move flipped; fullmove number advanced
/// after Black moves.
pub open spec fn committed(
    b: BoardModel,
    g: Seq<Option<Piece>>,
    wk: (usize, usize),
    bk: (usize, usize),
    mv: Move,
    kind: MoveType,
    capture: bool,
) -> BoardModel {
    let white = b.turn == Color::White;
    let km = is_king_move(kind);
    BoardModel {
        grid: g,
        turn: b.turn.spec_opposite(),
        wk_castle: b.wk_castle && !(km && white) && !touches(mv, 7, 0),
        wq_castle: b.wq_castle && !(km && white) && !touches(mv, 0, 0),
        bk_castle: b.bk_castle && !(km && !white) && !touches(mv, 7, 7),
        bq_castle: b.bq_castle && !(km && !white) && !touches(mv, 0, 7),
        en_passant: if kind == MoveType::Pawn2 {
            Some((mv.to_x, if white { 2usize } else { 5usize }))
        } else {
            None
        },
        halfmove: if is_pawn_move(kind) || capture { 0 } else { sat_inc(b.halfmove) },
        fullmove: if b.turn == Color::Black { sat_inc(b.fullmove) } else { b.fullmove },
        white_king: wk,
        black_king: bk,
    }
}

/// King squares after a move of class `kind` that ends on (tx, ty).
pub open spec fn kings_after(b: BoardModel, kind: MoveType, tx: usize, ty: usize) -> ((usize, usize), (usize, usize)) {
    if is_king_move(kind) {
        if b.turn == Color::White { ((tx, ty), b.black_king) } else { (b.white_king, (tx, ty)) }
    } else {
        (b.white_king, b.black_king)
    }
}

/// Applies a move of class `kind` that passed its precheck: a castle is
/// committed at once; any other move is committed only when it leaves the
/// mover's king unattacked.
pub open spec fn finish_move(b: BoardModel, mv: Move, p: Piece, kind: MoveType) -> Result<BoardModel, MoveError> {
    let ks = kings_after(b, kind, mv.to_x, mv.to_y);
    if kind == MoveType::KingCastleKingSide || kind == MoveType::KingCastleQueenSide {
        Ok(committed(b, castle_grid(b, kind == MoveType::KingCastleKingSide), ks.0, ks.1, mv, kind, false))
    } else {
        let g = moved_grid(b, mv, p, kind);
        if in_check(b.with_grid(g, ks.0, ks.1)) {
            Err(MoveError::KingInCheck)
        } else {
            let capture = b.at(mv.to_x as int, mv.to_y as int).is_some() || is_en_passant(b, mv, kind);
            Ok(committed(b, g, ks.0, ks.1, mv, kind, capture))
        }
    }
}

/// What applying `mv` to `b` gives: the next position, or the error.
pub open spec fn move_outcome(b: BoardModel, mv: Move) -> Result<BoardModel, MoveError> {
    let fx = mv.from_x as int;
    let fy = mv.from_y as int;
    let tx = mv.to_x as int;
    let ty = mv.to_y as int;
    match b.at(fx, fy) {
        None => Err(MoveError::NoPieceOnSourceSquare),
        Some(p) => if fx == tx && fy == ty {
            Err(MoveError::MustMovePiece)
        } else if p.color != b.turn {
            Err(MoveError::PieceWrongColor)
        } else {
            let kind = move_kind(p, fx, fy, tx, ty);
            match precheck(b, mv, kind) {
                Some(e) => Err(e),
                None => finish_move(b, mv, p, kind),
            }
        },
    }
}

/// Signed material of one cell: positive for White, negative for Black.
pub open spec fn signed_value(o: Option<Piece>) -> int {
    match o {
        Some(p) => if p.color == Color::White { centipawns(p.piece_type) } else { -centipawns(p.piece_type) },
        None => 0,
    }
}

/// White's material minus Black's, in centipawns.
pub open spec fn material(g: Seq<Option<Piece>>) -> int
    decreases g.len(),
{
    if g.len() == 0 {
        0
    } else {
        material(g.drop_last()) + signed_value(g.last())
    }
}

} // verus!
