//! Move generation: pseudo-legal candidates per piece, filtered to the moves
//! that the board accepts.
use vstd::prelude::*;
use crate::board::Board;
use crate::chess_move::Move;
use crate::color::Color;
use crate::piece::{Piece, pawn_dir, pawn_start, home_rank};
use crate::piece_type::PieceType;
use crate::rules::{BoardModel, on_board, ray_measure, castle_allowed, move_outcome};

verus! {

/// The moves of the piece on (x, y) that land on (nx, ny): four promotions
/// when a pawn reaches the last rank, one plain move otherwise.
pub open spec fn expand(x: int, y: int, nx: int, ny: int, p: Piece) -> Seq<Move> {
    let m = |t: Option<PieceType>|
        Move {
            from_x: x as usize,
            from_y: y as usize,
            to_x: nx as usize,
            to_y: ny as usize,
            piece_type: p.piece_type,
            promotion: t,
        };
    if p.piece_type == PieceType::Pawn && (ny == 0 || ny == 7) {
        seq![
            m(Some(PieceType::Queen)),
            m(Some(PieceType::Rook)),
            m(Some(PieceType::Knight)),
            m(Some(PieceType::Bishop)),
        ]
    } else {
        seq![m(None)]
    }
}

/// The moves onto (nx, ny): none when a piece of the mover's own colour stands there.
pub open spec fn step_moves(b: BoardModel, x: int, y: int, nx: int, ny: int, p: Piece) -> Seq<Move> {
    match b.at(nx, ny) {
        Some(q) => if q.color != p.color { expand(x, y, nx, ny, p) } else { Seq::empty() },
        None => expand(x, y, nx, ny, p),
    }
}

/// The moves of the piece on (x, y) in direction (dx, dy), continuing from
/// (cx, cy): one step, or for a sliding piece every step up to and including
/// the first occupied square.
pub open spec fn walk_moves(
    b: BoardModel,
    x: int,
    y: int,
    cx: int,
    cy: int,
    dx: int,
    dy: int,
    p: Piece,
    slide: bool,
) -> Seq<Move>
    decreases ray_measure(cx, cy, dx, dy),
{
    let nx = cx + dx;
    let ny = cy + dy;
    if (dx == 0 && dy == 0) || !on_board(nx, ny) {
        Seq::empty()
    } else if b.at(nx, ny).is_some() || !slide {
        step_moves(b, x, y, nx, ny, p)
    } else {
        step_moves(b, x, y, nx, ny, p) + walk_moves(b, x, y, nx, ny, dx, dy, p, slide)
    }
}

/// The moves along each of the directions in turn.
pub open spec fn dirs_moves(b: BoardModel, x: int, y: int, p: Piece, ds: Seq<(i32, i32)>, slide: bool) -> Seq<Move>
    decreases ds.len(),
{
    if ds.len() == 0 {
        Seq::empty()
    } else {
        dirs_moves(b, x, y, p, ds.drop_last(), slide) + walk_moves(
            b,
            x,
            y,
            x,
            y,
            ds.last().0 as int,
            ds.last().1 as int,
            p,
            slide,
        )
    }
}

pub open spec fn straight_dirs() -> Seq<(i32, i32)> {
    seq![(1i32, 0i32), (-1i32, 0i32), (0i32, 1i32), (0i32, -1i32)]
}

pub open spec fn diagonal_dirs() -> Seq<(i32, i32)> {
    seq![(1i32, 1i32), (-1i32, 1i32), (1i32, -1i32), (-1i32, -1i32)]
}

pub open spec fn knight_dirs() -> Seq<(i32, i32)> {
    seq![(2i32, 1i32), (1i32, 2i32), (-1i32, 2i32), (-2i32, 1i32), (-2i32, -1i32), (-1i32, -2i32), (1i32, -2i32), (2i32, -1i32)]
}

/// The diagonal step of a pawn toward file offset `dx` is a capture: an
/// opposing piece stands there, or it is the en-passant target.
pub open spec fn pawn_can_take(b: BoardModel, x: int, y: int, dx: int, p: Piece) -> bool {
    let cx = x + dx;
    let cy = y + pawn_dir(p.color);
    on_board(cx, cy) && match b.at(cx, cy) {
        Some(q) => q.color != p.color,
        None => b.en_passant == Some((cx as usize, cy as usize)),
    }
}

/// The steps open to a pawn: forward one square onto an empty square, two
/// from its starting rank when both squares are empty, and diagonal captures.
pub open spec fn pawn_dirs(b: BoardModel, x: int, y: int, p: Piece) -> Seq<(i32, i32)> {
    let d = pawn_dir(p.color);
    let f1 = y + d;
    let fwd = if 0 <= f1 < 8 && b.at(x, f1).is_none() {
        if y == pawn_start(p.color) && b.at(x, y + 2 * d).is_none() {
            seq![(0i32, d as i32), (0i32, (2 * d) as i32)]
        } else {
            seq![(0i32, d as i32)]
        }
    } else {
        Seq::empty()
    };
    let left = if pawn_can_take(b, x, y, -1, p) { seq![(-1i32, d as i32)] } else { Seq::empty() };
    let right = if pawn_can_take(b, x, y, 1, p) { seq![(1i32, d as i32)] } else { Seq::empty() };
    fwd + left + right
}

pub open spec fn piece_dirs(b: BoardModel, x: int, y: int, p: Piece) -> Seq<(i32, i32)> {
    match p.piece_type {
        PieceType::Pawn => pawn_dirs(b, x, y, p),
        PieceType::Rook => straight_dirs(),
        PieceType::Knight => knight_dirs(),
        PieceType::Bishop => diagonal_dirs(),
        PieceType::Queen | PieceType::King => straight_dirs() + diagonal_dirs(),
    }
}

pub open spec fn is_slider(t: PieceType) -> bool {
    t == PieceType::Rook || t == PieceType::Bishop || t == PieceType::Queen
}

pub open spec fn castle_move(x: int, y: int, tx: int) -> Move {
    Move { from_x: x as usize, from_y: y as usize, to_x: tx as usize, to_y: y as usize, piece_type: PieceType::King, promotion: None }
}

/// The pseudo-legal moves of piece `p` on (x, y): its steps and walks, and
/// for a king on its home square the castles that are allowed.
pub open spec fn piece_moves(b: BoardModel, x: int, y: int, p: Piece) -> Seq<Move> {
    let base = dirs_moves(b, x, y, p, piece_dirs(b, x, y, p), is_slider(p.piece_type));
    if p.piece_type == PieceType::King && x == 4 && y == home_rank(p.color) {
        let k = if castle_allowed(b, true) { seq![castle_move(x, y, 6)] } else { Seq::empty() };
        let q = if castle_allowed(b, false) { seq![castle_move(x, y, 2)] } else { Seq::empty() };
        base + k + q
    } else {
        base
    }
}

/// The board accepts the move.
pub open spec fn accepted(b: BoardModel, m: Move) -> bool {
    move_outcome(b, m) is Ok
}

/// The moves of `ms` that the board accepts, in order.
pub open spec fn legal_of(b: BoardModel, ms: Seq<Move>) -> Seq<Move>
    decreases ms.len(),
{
    if ms.len() == 0 {
        Seq::empty()
    } else {
        legal_of(b, ms.drop_last()) + if accepted(b, ms.last()) { seq![ms.last()] } else { Seq::empty() }
    }
}

/// The legal moves of the pieces on the first `k` cells (row-major from a1).
pub open spec fn legal_upto(b: BoardModel, k: int) -> Seq<Move>
    decreases k,
{
    if k <= 0 {
        Seq::empty()
    } else {
        let x = (k - 1) % 8;
        let y = (k - 1) / 8;
        legal_upto(b, k - 1) + match b.at(x, y) {
            Some(p) => if p.color == b.turn { legal_of(b, piece_moves(b, x, y, p)) } else { Seq::empty() },
            None => Seq::empty(),
        }
    }
}

/// The legal moves of the side to move.
pub open spec fn legal_moves(b: BoardModel) -> Seq<Move> {
    legal_upto(b, 64)
}

/// Every move of `legal_of(b, ms)` is accepted by the board.
pub proof fn lemma_legal_of_accepted(b: BoardModel, ms: Seq<Move>)
    ensures
        forall|i: int| 0 <= i < legal_of(b, ms).len() ==> accepted(b, #[trigger] legal_of(b, ms)[i]),
    decreases ms.len(),
{
    if ms.len() > 0 {
        lemma_legal_of_accepted(b, ms.drop_last());
        let a = legal_of(b, ms.drop_last());
        let t = if accepted(b, ms.last()) { seq![ms.last()] } else { Seq::empty() };
        assert(legal_of(b, ms) == a + t);
        assert forall|i: int| 0 <= i < (a + t).len() implies accepted(b, #[trigger] (a + t)[i]) by {
            if i < a.len() {
                assert((a + t)[i] == a[i]);
            } else {
                assert((a + t)[i] == t[i - a.len()]);
            }
        };
    }
}

/// Every move of `legal_upto(b, k)` is accepted by the board.
pub proof fn lemma_legal_upto_accepted(b: BoardModel, k: int)
    ensures
        forall|i: int| 0 <= i < legal_upto(b, k).len() ==> accepted(b, #[trigger] legal_upto(b, k)[i]),
    decreases k,
{
    if k > 0 {
        lemma_legal_upto_accepted(b, k - 1);
        let x = (k - 1) % 8;
        let y = (k - 1) / 8;
        let a = legal_upto(b, k - 1);
        let t = match b.at(x, y) {
            Some(p) => if p.color == b.turn { legal_of(b, piece_moves(b, x, y, p)) } else { Seq::empty() },
            None => Seq::empty(),
        };
        match b.at(x, y) {
            Some(p) => if p.color == b.turn {
                lemma_legal_of_accepted(b, piece_moves(b, x, y, p));
            },
            None => {},
        }
        assert(legal_upto(b, k) == a + t);
        assert forall|i: int| 0 <= i < (a + t).len() implies accepted(b, #[trigger] (a + t)[i]) by {
            if i < a.len() {
                assert((a + t)[i] == a[i]);
            } else {
                assert((a + t)[i] == t[i - a.len()]);
            }
        };
    }
}

/// Every generated legal move is accepted when applied to the board.
pub proof fn lemma_generated_moves_apply(b: BoardModel)
    ensures
        forall|i: int| 0 <= i < legal_moves(b).len() ==> accepted(b, #[trigger] legal_moves(b)[i]),
{
    lemma_legal_upto_accepted(b, 64);
}

fn dirs_of(pairs: &[(i32, i32)]) -> (r: Vec<(i32, i32)>)
    ensures
        r@ == pairs@,
{
    let mut v: Vec<(i32, i32)> = Vec::new();
    let mut i: usize = 0;
    while i < pairs.len()
        invariant
            i <= pairs@.len(),
            v@ == pairs@.subrange(0, i as int),
        decreases pairs@.len() - i,
    {
        v.push(pairs[i]);
        i = i + 1;
        assert(v@ =~= pairs@.subrange(0, i as int));
    }
    assert(v@ =~= pairs@);
    v
}

fn push_expanded(moves: &mut Vec<Move>, x: usize, y: usize, nx: usize, ny: usize, p: Piece)
    ensures
        final(moves)@ == old(moves)@ + expand(x as int, y as int, nx as int, ny as int, p),
{
    if p.piece_type == PieceType::Pawn && (ny == 0 || ny == 7) {
        moves.push(Move::new(x, y, nx, ny, p.piece_type, Some(PieceType::Queen)));
        moves.push(Move::new(x, y, nx, ny, p.piece_type, Some(PieceType::Rook)));
        moves.push(Move::new(x, y, nx, ny, p.piece_type, Some(PieceType::Knight)));
        moves.push(Move::new(x, y, nx, ny, p.piece_type, Some(PieceType::Bishop)));
    } else {
        moves.push(Move::new(x, y, nx, ny, p.piece_type, None));
    }
    assert(final(moves)@ =~= old(moves)@ + expand(x as int, y as int, nx as int, ny as int, p));
}

impl Board {
    /// The steps open to the pawn `piece` on (x, y).
    fn generate_pawn_moves(&self, x: usize, y: usize, piece: &Piece) -> (r: Vec<(i32, i32)>)
        requires
            self@.wf(),
            x < 8 && y < 8,
        ensures
            r@ == pawn_dirs(self@, x as int, y as int, *piece),
    {
        let mut moves: Vec<(i32, i32)> = Vec::new();
        let white = piece.color == Color::White;
        let direction: i32 = if white { 1 } else { -1 };
        let forward_one: i32 = y as i32 + direction;
        if 0 <= forward_one && forward_one < 8 && self.get_piece(x, forward_one as usize).is_none() {
            moves.push((0, direction));
            if (white && y == 1) || (!white && y == 6) {
                let forward_two = (y as i32 + 2 * direction) as usize;
                if self.get_piece(x, forward_two).is_none() {
                    moves.push((0, 2 * direction));
                }
            }
        }
        let mut left = false;
        if x >= 1 && 0 <= forward_one && forward_one < 8 {
            left = match self.get_piece(x - 1, forward_one as usize) {
                Some(target) => target.color != piece.color,
                None => self.get_en_passant() == Some((x - 1, forward_one as usize)),
            };
        }
        if left {
            moves.push((-1, direction));
        }
        let mut right = false;
        if x + 1 < 8 && 0 <= forward_one && forward_one < 8 {
            right = match self.get_piece(x + 1, forward_one as usize) {
                Some(target) => target.color != piece.color,
                None => self.get_en_passant() == Some((x + 1, forward_one as usize)),
            };
        }
        if right {
            moves.push((1, direction));
        }
        assert(moves@ =~= pawn_dirs(self@, x as int, y as int, *piece));
        moves
    }

    /// Appends the moves of `piece` from (x, y) in direction (dx, dy).
    fn walk(&self, moves: &mut Vec<Move>, x: usize, y: usize, dx: i32, dy: i32, piece: Piece, slide: bool)
        requires
            self@.wf(),
            x < 8 && y < 8,
            -2 <= dx <= 2 && -2 <= dy <= 2,
        ensures
            final(moves)@ == old(moves)@ + walk_moves(
                self@,
                x as int,
                y as int,
                x as int,
                y as int,
                dx as int,
                dy as int,
                piece,
                slide,
            ),
    {
        if dx == 0 && dy == 0 {
            return;
        }
        let ghost start = moves@;
        let mut cx: i32 = x as i32;
        let mut cy: i32 = y as i32;
        loop
            invariant
                self@.wf(),
                x < 8 && y < 8,
                on_board(cx as int, cy as int),
                start == old(moves)@,
                -2 <= dx <= 2 && -2 <= dy <= 2,
                !(dx == 0 && dy == 0),
                moves@ + walk_moves(self@, x as int, y as int, cx as int, cy as int, dx as int, dy as int, piece, slide)
                    == start + walk_moves(
                    self@,
                    x as int,
                    y as int,
                    x as int,
                    y as int,
                    dx as int,
                    dy as int,
                    piece,
                    slide,
                ),
            decreases ray_measure(cx as int, cy as int, dx as int, dy as int),
        {
            let nx = cx + dx;
            let ny = cy + dy;
            if nx < 0 || nx >= 8 || ny < 0 || ny >= 8 {
                assert(walk_moves(self@, x as int, y as int, cx as int, cy as int, dx as int, dy as int, piece, slide)
                    =~= Seq::<Move>::empty());
                assert(moves@ + Seq::<Move>::empty() =~= moves@);
                return;
            }
            let target = self.get_piece(nx as usize, ny as usize);
            let ghost before = moves@;
            match target {
                Some(q) => {
                    if q.color != piece.color {
                        push_expanded(moves, x, y, nx as usize, ny as usize, piece);
                    }
                },
                None => push_expanded(moves, x, y, nx as usize, ny as usize, piece),
            }
            assert(moves@ =~= before + step_moves(self@, x as int, y as int, nx as int, ny as int, piece));
            if target.is_some() || !slide {
                assert(walk_moves(self@, x as int, y as int, cx as int, cy as int, dx as int, dy as int, piece, slide)
                    == step_moves(self@, x as int, y as int, nx as int, ny as int, piece));
                return;
            }
            let ghost rest = walk_moves(self@, x as int, y as int, nx as int, ny as int, dx as int, dy as int, piece, slide);
            assert(before + (step_moves(self@, x as int, y as int, nx as int, ny as int, piece) + rest) =~= moves@ + rest);
            cx = nx;
            cy = ny;
        }
    }

    /// The pseudo-legal moves of `piece` standing on (x, y).
    fn generate_piece_moves(&self, x: usize, y: usize, piece: &Piece) -> (r: Vec<Move>)
        requires
            self@.wf(),
            x < 8 && y < 8,
        ensures
            r@ == piece_moves(self@, x as int, y as int, *piece),
    {
        let directions: Vec<(i32, i32)> = match piece.piece_type {
            PieceType::Pawn => self.generate_pawn_moves(x, y, piece),
            PieceType::Rook => dirs_of(&[(1, 0), (-1, 0), (0, 1), (0, -1)]),
            PieceType::Knight => dirs_of(&[(2, 1), (1, 2), (-1, 2), (-2, 1), (-2, -1), (-1, -2), (1, -2), (2, -1)]),
            PieceType::Bishop => dirs_of(&[(1, 1), (-1, 1), (1, -1), (-1, -1)]),
            PieceType::Queen | PieceType::King => dirs_of(
                &[(1, 0), (-1, 0), (0, 1), (0, -1), (1, 1), (-1, 1), (1, -1), (-1, -1)],
            ),
        };
        let ghost ds = piece_dirs(self@, x as int, y as int, *piece);
        assert(directions@ =~= ds);
        let slide = piece.piece_type == PieceType::Rook || piece.piece_type == PieceType::Bishop
            || piece.piece_type == PieceType::Queen;
        let mut moves: Vec<Move> = Vec::new();
        let mut i: usize = 0;
        while i < directions.len()
            invariant
                self@.wf(),
                x < 8 && y < 8,
                i <= directions@.len(),
                directions@ == ds,
                forall|j: int| 0 <= j < ds.len() ==> -2 <= #[trigger] ds[j].0 <= 2 && -2 <= ds[j].1 <= 2,
                slide == is_slider(piece.piece_type),
                moves@ == dirs_moves(self@, x as int, y as int, *piece, ds.subrange(0, i as int), slide),
            decreases directions@.len() - i,
        {
            let (dx, dy) = directions[i];
            self.walk(&mut moves, x, y, dx, dy, *piece, slide);
            i = i + 1;
            assert(ds.subrange(0, i as int).drop_last() =~= ds.subrange(0, i - 1));
        }
        assert(ds.subrange(0, i as int) =~= ds);
        if piece.piece_type == PieceType::King && x == 4 && ((piece.color == Color::White && y == 0) || (piece.color
            == Color::Black && y == 7)) {
            if self.can_castle(true) {
                moves.push(Move::new(x, y, 6, y, PieceType::King, None));
            }
            if self.can_castle(false) {
                moves.push(Move::new(x, y, 2, y, PieceType::King, None));
            }
            assert(moves@ =~= piece_moves(self@, x as int, y as int, *piece));
        }
        moves
    }

    /// Does the board accept the move? The move is tried on a copy.
    pub fn is_legal_move(&self, mv: &Move) -> (r: bool)
        requires
            self@.wf(),
        ensures
            r == accepted(self@, *mv),
    {
        let mut temp_board = self.duplicate();
        temp_board.move_piece(*mv).is_ok()
    }

    /// The legal moves of the side to move: every pseudo-legal move of each
    /// of its pieces, scanned from a1 rank by rank, that the board accepts.
    pub fn generate_legal_moves(&self) -> (r: Vec<Move>)
        requires
            self@.wf(),
        ensures
            r@ == legal_moves(self@),
    {
        let mut legal: Vec<Move> = Vec::new();
        let mut k: usize = 0;
        while k < 64
            invariant
                self@.wf(),
                k <= 64,
                legal@ == legal_upto(self@, k as int),
            decreases 64 - k,
        {
            let x = k % 8;
            let y = k / 8;
            let ghost before = legal@;
            if let Some(piece) = self.get_piece(x, y) {
                if piece.color == *self.get_player_turn() {
                    let piece_moves = self.generate_piece_moves(x, y, &piece);
                    let mut j: usize = 0;
                    while j < piece_moves.len()
                        invariant
                            self@.wf(),
                            j <= piece_moves@.len(),
                            legal@ == before + legal_of(self@, piece_moves@.subrange(0, j as int)),
                        decreases piece_moves@.len() - j,
                    {
                        let mv = piece_moves[j];
                        if self.is_legal_move(&mv) {
                            legal.push(mv);
                        }
                        j = j + 1;
                        assert(piece_moves@.subrange(0, j as int).drop_last() =~= piece_moves@.subrange(0, j - 1));
                        assert(legal@ =~= before + legal_of(self@, piece_moves@.subrange(0, j as int)));
                    }
                    assert(piece_moves@.subrange(0, j as int) =~= piece_moves@);
                }
            }
            k = k + 1;
            assert(legal@ =~= legal_upto(self@, k as int));
        }
        legal
    }
}

} // verus!
