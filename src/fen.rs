//! Positions in Forsyth-Edwards Notation.
use vstd::prelude::*;
use crate::board::Board;
use crate::color::Color;
use crate::notation::{is_ws, is_whitespace, chars_of, square_of, square_at, push_char, push_number, decimal, digit_char};
use crate::piece::{Piece, piece_of_letter, piece_letter};
use crate::piece_type::PieceType;
use crate::rules::{BoardModel, cell};

verus! {

/// The whitespace-separated fields of `s[i..]`, after the field `cur`
/// being read and the fields `acc` already read.
pub open spec fn split_from(s: Seq<char>, i: int, cur: Seq<char>, acc: Seq<Seq<char>>) -> Seq<Seq<char>>
    decreases s.len() - i,
{
    if i < 0 || i >= s.len() {
        if cur.len() > 0 { acc.push(cur) } else { acc }
    } else if is_ws(s[i]) {
        split_from(s, i + 1, Seq::empty(), if cur.len() > 0 { acc.push(cur) } else { acc })
    } else {
        split_from(s, i + 1, cur.push(s[i]), acc)
    }
}

/// The whitespace-separated fields of `s`.
pub open spec fn fields_of(s: Seq<char>) -> Seq<Seq<char>> {
    split_from(s, 0, Seq::empty(), Seq::empty())
}

/// The state of reading the placement field: the grid so far and the next
/// square.
pub struct Placement {
    pub grid: Seq<Option<Piece>>,
    pub x: int,
    pub y: int,
}

pub open spec fn empty_placement() -> Placement {
    Placement { grid: Seq::new(64, |i: int| None::<Piece>), x: 0, y: 7 }
}

/// The square of the king of colour `c` met last when reading the first `k`
/// cells in FEN order (rank 8 first, files a to h); (0, 0) when there is none.
pub open spec fn king_scan(g: Seq<Option<Piece>>, c: Color, k: int) -> (usize, usize)
    decreases k,
{
    if k <= 0 {
        (0, 0)
    } else {
        let x = (k - 1) % 8;
        let y = 7 - (k - 1) / 8;
        if g[cell(x, y)] == Some(Piece { piece_type: PieceType::King, color: c }) {
            (x as usize, y as usize)
        } else {
            king_scan(g, c, k - 1)
        }
    }
}

/// One character of the placement field: a piece letter fills the next
/// square, a digit 1-8 skips that many squares, '/' starts the next rank
/// down. Anything else, a rank overrun, or a ninth rank fails.
pub open spec fn place_step(c: char, st: Placement) -> Option<Placement> {
    if c == '/' {
        if st.y == 0 { None } else { Some(Placement { grid: st.grid, x: 0, y: st.y - 1 }) }
    } else if '1' <= c && c <= '8' {
        let nx = st.x + (c as u32 - '0' as u32);
        if nx > 8 { None } else { Some(Placement { grid: st.grid, x: nx, y: st.y }) }
    } else {
        match piece_of_letter(c) {
            None => None,
            Some(p) => if st.x >= 8 {
                None
            } else {
                Some(Placement { grid: st.grid.update(cell(st.x, st.y), Some(p)), x: st.x + 1, y: st.y })
            },
        }
    }
}

/// Reads the placement field from index `i` on.
pub open spec fn place_from(cs: Seq<char>, i: int, st: Placement) -> Option<Placement>
    decreases cs.len() - i,
{
    if i < 0 || i >= cs.len() {
        Some(st)
    } else {
        match place_step(cs[i], st) {
            None => None,
            Some(next) => place_from(cs, i + 1, next),
        }
    }
}

pub open spec fn is_digit(c: char) -> bool {
    '0' <= c && c <= '9'
}

pub open spec fn all_digits(s: Seq<char>) -> bool {
    forall|i: int| 0 <= i < s.len() ==> is_digit(#[trigger] s[i])
}

/// The value of a string of decimal digits.
pub open spec fn digits_value(s: Seq<char>) -> int
    decreases s.len(),
{
    if s.len() == 0 {
        0
    } else {
        digits_value(s.drop_last()) * 10 + (s.last() as u32 - '0' as u32)
    }
}

/// A non-empty string of decimal digits whose value fits in a `u32`.
pub open spec fn number_of(s: Seq<char>) -> Option<u32> {
    if s.len() > 0 && all_digits(s) && digits_value(s) <= u32::MAX {
        Some(digits_value(s) as u32)
    } else {
        None
    }
}

pub open spec fn turn_of(s: Seq<char>) -> Option<Color> {
    if s == seq!['w'] {
        Some(Color::White)
    } else if s == seq!['b'] {
        Some(Color::Black)
    } else {
        None
    }
}

/// The en-passant field: "-" for none, or a square.
pub open spec fn en_passant_of(s: Seq<char>) -> Option<Option<(usize, usize)>> {
    if s == seq!['-'] {
        Some(None)
    } else {
        match square_of(s) {
            Some(q) => Some(Some(q)),
            None => None,
        }
    }
}

/// Field `i` read as a number, or `d` when the field is absent.
pub open spec fn counter_of(f: Seq<Seq<char>>, i: int, d: u32) -> Option<u32> {
    if i < f.len() { number_of(f[i]) } else { Some(d) }
}

/// The position that FEN text describes: placement, side to move,
/// castling availability and en-passant target are required; the halfmove
/// clock and fullmove number default to 0 and 1; further fields are ignored.
/// Each cached king square is that of the king met last in FEN order.
pub open spec fn fen_position(s: Seq<char>) -> Option<BoardModel> {
    let f = fields_of(s);
    if f.len() < 4 {
        None
    } else {
        match (place_from(f[0], 0, empty_placement()), turn_of(f[1]), en_passant_of(f[3]), counter_of(f, 4, 0), counter_of(f, 5, 1)) {
            (Some(pl), Some(t), Some(ep), Some(h), Some(m)) => Some(
                BoardModel {
                    grid: pl.grid,
                    turn: t,
                    wk_castle: f[2].contains('K'),
                    wq_castle: f[2].contains('Q'),
                    bk_castle: f[2].contains('k'),
                    bq_castle: f[2].contains('q'),
                    en_passant: ep,
                    halfmove: h,
                    fullmove: m,
                    white_king: king_scan(pl.grid, Color::White, 64),
                    black_king: king_scan(pl.grid, Color::Black, 64),
                },
            ),
            _ => None,
        }
    }
}

pub open spec fn views(v: Seq<Vec<char>>) -> Seq<Seq<char>> {
    v.map_values(|w: Vec<char>| w@)
}

/// Splits text into its whitespace-separated fields.
pub fn split_fields(s: &Vec<char>) -> (r: Vec<Vec<char>>)
    ensures
        views(r@) == fields_of(s@),
{
    let mut acc: Vec<Vec<char>> = Vec::new();
    let mut cur: Vec<char> = Vec::new();
    let mut i: usize = 0;
    assert(views(acc@) =~= Seq::<Seq<char>>::empty());
    while i < s.len()
        invariant
            i <= s@.len(),
            split_from(s@, i as int, cur@, views(acc@)) == fields_of(s@),
        decreases s@.len() - i,
    {
        let c = s[i];
        let ghost before = views(acc@);
        let ghost cv = cur@;
        assert(c == s@[i as int]);
        if is_whitespace(c) {
            if cur.len() > 0 {
                acc.push(cur);
                assert(views(acc@) =~= before.push(cv));
                cur = Vec::new();
                assert(cur@ =~= Seq::<char>::empty());
            } else {
                assert(cv =~= Seq::<char>::empty());
            }
        } else {
            cur.push(c);
        }
        i = i + 1;
    }
    let ghost before = views(acc@);
    let ghost cv = cur@;
    if cur.len() > 0 {
        acc.push(cur);
        assert(views(acc@) =~= before.push(cv));
    }
    acc
}

/// Does `s` contain `c`?
pub fn has_char(s: &Vec<char>, c: char) -> (r: bool)
    ensures
        r == s@.contains(c),
{
    let mut i: usize = 0;
    while i < s.len()
        invariant
            i <= s@.len(),
            forall|j: int| 0 <= j < i ==> s@[j] != c,
        decreases s@.len() - i,
    {
        if s[i] == c {
            assert(s@[i as int] == c);
            return true;
        }
        i = i + 1;
    }
    false
}

proof fn lemma_digits_nonneg(s: Seq<char>)
    requires
        all_digits(s),
    ensures
        digits_value(s) >= 0,
    decreases s.len(),
{
    if s.len() > 0 {
        assert(all_digits(s.drop_last())) by {
            assert forall|i: int| 0 <= i < s.drop_last().len() implies is_digit(#[trigger] s.drop_last()[i]) by {
                assert(s.drop_last()[i] == s[i]);
            };
        };
        lemma_digits_nonneg(s.drop_last());
    }
}

proof fn lemma_digits_grow(s: Seq<char>)
    requires
        s.len() > 0,
        all_digits(s),
    ensures
        digits_value(s) >= digits_value(s.drop_last()),
{
    assert(all_digits(s.drop_last())) by {
        assert forall|i: int| 0 <= i < s.drop_last().len() implies is_digit(#[trigger] s.drop_last()[i]) by {
            assert(s.drop_last()[i] == s[i]);
        };
    };
    lemma_digits_nonneg(s.drop_last());
    assert(is_digit(s[s.len() - 1]));
}

/// Reads a non-empty string of decimal digits as a `u32`.
pub fn parse_number(s: &Vec<char>) -> (r: Option<u32>)
    ensures
        r == number_of(s@),
{
    if s.len() == 0 {
        return None;
    }
    let mut value: u64 = 0;
    let mut too_big = false;
    let mut i: usize = 0;
    while i < s.len()
        invariant
            i <= s@.len(),
            all_digits(s@.subrange(0, i as int)),
            too_big ==> digits_value(s@.subrange(0, i as int)) > u32::MAX,
            !too_big ==> value as int == digits_value(s@.subrange(0, i as int)) && value <= u32::MAX,
        decreases s@.len() - i,
    {
        let c = s[i];
        if !('0' <= c && c <= '9') {
            assert(!all_digits(s@)) by {
                assert(!is_digit(s@[i as int]));
            };
            return None;
        }
        let ghost pre = s@.subrange(0, i as int);
        assert(s@.subrange(0, i + 1).drop_last() =~= pre);
        assert(all_digits(s@.subrange(0, i + 1))) by {
            assert forall|j: int| 0 <= j < i + 1 implies is_digit(#[trigger] s@.subrange(0, i + 1)[j]) by {
                if j < i {
                    assert(s@.subrange(0, i + 1)[j] == pre[j]);
                }
            };
        };
        if !too_big {
            value = value * 10 + (c as u32 - '0' as u32) as u64;
            if value > u32::MAX as u64 {
                too_big = true;
            }
        } else {
            proof {
                lemma_digits_grow(s@.subrange(0, i + 1));
            }
        }
        i = i + 1;
    }
    assert(s@.subrange(0, i as int) =~= s@);
    if too_big {
        None
    } else {
        Some(value as u32)
    }
}

/// The kind on file `x` of the back rank in the initial position.
pub open spec fn back_rank_type(x: int) -> PieceType {
    if x == 0 || x == 7 {
        PieceType::Rook
    } else if x == 1 || x == 6 {
        PieceType::Knight
    } else if x == 2 || x == 5 {
        PieceType::Bishop
    } else if x == 3 {
        PieceType::Queen
    } else {
        PieceType::King
    }
}

/// The occupant of (x, y) in the initial position.
pub open spec fn start_cell(x: int, y: int) -> Option<Piece> {
    if y == 0 {
        Some(Piece { piece_type: back_rank_type(x), color: Color::White })
    } else if y == 1 {
        Some(Piece { piece_type: PieceType::Pawn, color: Color::White })
    } else if y == 6 {
        Some(Piece { piece_type: PieceType::Pawn, color: Color::Black })
    } else if y == 7 {
        Some(Piece { piece_type: back_rank_type(x), color: Color::Black })
    } else {
        None
    }
}

/// The initial position of a game of chess.
pub open spec fn start_position() -> BoardModel {
    BoardModel {
        grid: Seq::new(64, |i: int| start_cell(i % 8, i / 8)),
        turn: Color::White,
        wk_castle: true,
        wq_castle: true,
        bk_castle: true,
        bq_castle: true,
        en_passant: None,
        halfmove: 0,
        fullmove: 1,
        white_king: (4, 0),
        black_king: (4, 7),
    }
}

fn start_piece(x: usize, y: usize) -> (r: Option<Piece>)
    ensures
        r == start_cell(x as int, y as int),
{
    let kind = if x == 0 || x == 7 {
        PieceType::Rook
    } else if x == 1 || x == 6 {
        PieceType::Knight
    } else if x == 2 || x == 5 {
        PieceType::Bishop
    } else if x == 3 {
        PieceType::Queen
    } else {
        PieceType::King
    };
    if y == 0 {
        Some(Piece::new(kind, Color::White))
    } else if y == 1 {
        Some(Piece::new(PieceType::Pawn, Color::White))
    } else if y == 6 {
        Some(Piece::new(PieceType::Pawn, Color::Black))
    } else if y == 7 {
        Some(Piece::new(kind, Color::Black))
    } else {
        None
    }
}

/// The text of rank `y` from file `x` on, after `run` empty squares.
pub open spec fn rank_text(b: BoardModel, y: int, x: int, run: nat) -> Seq<char>
    decreases 8 - x,
{
    let pending = if run > 0 { seq![digit_char(run as int)] } else { Seq::empty() };
    if x >= 8 {
        pending
    } else {
        match b.at(x, y) {
            None => rank_text(b, y, x + 1, run + 1),
            Some(p) => pending + seq![piece_letter(p)] + rank_text(b, y, x + 1, 0),
        }
    }
}

/// The placement field from rank `y` down to rank 1.
pub open spec fn placement_text(b: BoardModel, y: int) -> Seq<char>
    decreases y,
{
    if y <= 0 {
        rank_text(b, 0, 0, 0)
    } else {
        rank_text(b, y, 0, 0) + seq!['/'] + placement_text(b, y - 1)
    }
}

pub open spec fn castling_text(b: BoardModel) -> Seq<char> {
    let t = (if b.wk_castle { seq!['K'] } else { Seq::empty() }) + (if b.wq_castle { seq!['Q'] } else { Seq::empty() })
        + (if b.bk_castle { seq!['k'] } else { Seq::empty() }) + (if b.bq_castle { seq!['q'] } else { Seq::empty() });
    if t.len() == 0 { seq!['-'] } else { t }
}

pub open spec fn square_text(s: (usize, usize)) -> Seq<char> {
    seq![(s.0 + 'a' as int) as char, (s.1 + '1' as int) as char]
}

/// The FEN text of a position: six fields separated by single spaces.
pub open spec fn fen_text(b: BoardModel) -> Seq<char> {
    placement_text(b, 7) + seq![' ', if b.turn == Color::White { 'w' } else { 'b' }, ' '] + castling_text(b) + seq![' ']
        + match b.en_passant {
        Some(s) => square_text(s),
        None => seq!['-'],
    } + seq![' '] + decimal(b.halfmove as nat) + seq![' '] + decimal(b.fullmove as nat)
}

pub proof fn lemma_king_scan_on_board(g: Seq<Option<Piece>>, c: Color, k: int)
    requires
        0 <= k <= 64,
    ensures
        king_scan(g, c, k).0 < 8 && king_scan(g, c, k).1 < 8,
    decreases k,
{
    if k > 0 {
        lemma_king_scan_on_board(g, c, k - 1);
    }
}

/// The square of the king of colour `c` met last in FEN order.
fn find_king(squares: &Vec<Option<Piece>>, c: Color) -> (r: (usize, usize))
    requires
        squares@.len() == 64,
    ensures
        r == king_scan(squares@, c, 64),
        r.0 < 8 && r.1 < 8,
{
    let mut found: (usize, usize) = (0, 0);
    let mut k: usize = 0;
    while k < 64
        invariant
            squares@.len() == 64,
            k <= 64,
            found == king_scan(squares@, c, k as int),
        decreases 64 - k,
    {
        let x = k % 8;
        let y = 7 - k / 8;
        if let Some(p) = squares[y * 8 + x] {
            if p.piece_type == PieceType::King && p.color == c {
                found = (x, y);
            }
        }
        k = k + 1;
    }
    proof {
        lemma_king_scan_on_board(squares@, c, 64);
    }
    found
}

impl Board {
    /// Appends the text of rank `y`.
    fn push_rank(&self, s: &mut String, y: usize)
        requires
            self@.wf(),
            y < 8,
        ensures
            final(s)@ == old(s)@ + rank_text(self@, y as int, 0, 0),
    {
        let ghost start = s@;
        let mut run: usize = 0;
        let mut x: usize = 0;
        while x < 8
            invariant
                self@.wf(),
                y < 8,
                x <= 8,
                run <= x,
                start == old(s)@,
                s@ + rank_text(self@, y as int, x as int, run as nat) == start + rank_text(self@, y as int, 0, 0),
            decreases 8 - x,
        {
            let ghost before = s@;
            let ghost pending = if run > 0 { seq![digit_char(run as int)] } else { Seq::<char>::empty() };
            match self.get_piece(x, y) {
                None => {
                    run = run + 1;
                },
                Some(p) => {
                    if run > 0 {
                        push_char(s, ((run as u8) + 48) as char);
                    }
                    push_char(s, p.get_piece_char());
                    run = 0;
                    let ghost rest = rank_text(self@, y as int, x + 1, 0);
                    assert(s@ =~= before + pending + seq![piece_letter(p)]);
                    assert(before + (pending + seq![piece_letter(p)] + rest) =~= s@ + rest);
                },
            }
            x = x + 1;
        }
        let ghost before = s@;
        if run > 0 {
            push_char(s, ((run as u8) + 48) as char);
        }
        assert(s@ =~= start + rank_text(self@, y as int, 0, 0));
    }

    fn push_placement(&self, s: &mut String)
        requires
            self@.wf(),
        ensures
            final(s)@ == old(s)@ + placement_text(self@, 7),
    {
        let ghost start = s@;
        let mut y: usize = 8;
        while y > 0
            invariant
                self@.wf(),
                y <= 8,
                start == old(s)@,
                s@ + (if y > 0 { placement_text(self@, y - 1) } else { Seq::empty() }) == start + placement_text(self@, 7),
            decreases y,
        {
            let ghost before = s@;
            self.push_rank(s, y - 1);
            if y > 1 {
                push_char(s, '/');
                assert(before + placement_text(self@, y - 1) =~= s@ + placement_text(self@, y - 2));
            } else {
                assert(before + placement_text(self@, y - 1) =~= s@ + Seq::<char>::empty());
            }
            y = y - 1;
        }
        assert(s@ =~= s@ + Seq::<char>::empty());
    }

    fn push_castling(&self, s: &mut String)
        ensures
            final(s)@ == old(s)@ + castling_text(self@),
    {
        let (wk, wq, bk, bq) = self.get_castling_rights();
        if wk {
            push_char(s, 'K');
        }
        if wq {
            push_char(s, 'Q');
        }
        if bk {
            push_char(s, 'k');
        }
        if bq {
            push_char(s, 'q');
        }
        if !wk && !wq && !bk && !bq {
            push_char(s, '-');
        }
        assert(s@ =~= old(s)@ + castling_text(self@));
    }

    fn push_en_passant(&self, s: &mut String)
        requires
            self@.wf(),
        ensures
            final(s)@ == old(s)@ + match self@.en_passant {
                Some(q) => square_text(q),
                None => seq!['-'],
            },
    {
        match self.get_en_passant() {
            Some((ex, ey)) => {
                push_char(s, ((ex as u8) + 97) as char);
                push_char(s, ((ey as u8) + 49) as char);
                assert(s@ =~= old(s)@ + square_text((ex, ey)));
            },
            None => {
                push_char(s, '-');
                assert(s@ =~= old(s)@ + seq!['-']);
            },
        }
    }

    /// The position in Forsyth-Edwards Notation, all six fields present.
    pub fn to_fen(&self) -> (r: String)
        requires
            self@.wf(),
        ensures
            r@ == fen_text(self@),
    {
        let mut s = String::new();
        self.push_placement(&mut s);
        push_char(&mut s, ' ');
        push_char(&mut s, if *self.get_player_turn() == Color::White { 'w' } else { 'b' });
        push_char(&mut s, ' ');
        self.push_castling(&mut s);
        push_char(&mut s, ' ');
        self.push_en_passant(&mut s);
        push_char(&mut s, ' ');
        push_number(&mut s, self.get_halfmove());
        push_char(&mut s, ' ');
        push_number(&mut s, self.get_move_number());
        assert(s@ =~= fen_text(self@));
        s
    }

    /// The initial position: White to move, all castling rights, no
    /// en-passant target, halfmove clock 0, fullmove number 1.
    pub fn starting_position() -> (r: Board)
        ensures
            r@ == start_position(),
            r@.wf(),
    {
        let mut squares: Vec<Option<Piece>> = Vec::new();
        let mut k: usize = 0;
        while k < 64
            invariant
                k <= 64,
                squares@ == Seq::new(k as nat, |i: int| start_cell(i % 8, i / 8)),
            decreases 64 - k,
        {
            squares.push(start_piece(k % 8, k / 8));
            k = k + 1;
            assert(squares@ =~= Seq::new(k as nat, |i: int| start_cell(i % 8, i / 8)));
        }
        Board::from_parts(squares, Color::White, (true, true, true, true), None, 0, 1, (4, 0), (4, 7))
    }

    /// Reads a position in Forsyth-Edwards Notation. Fails on fewer than
    /// four fields, on an unknown letter or an overrun in the placement, on
    /// a side to move other than "w" or "b", on a bad en-passant square,
    /// and on a clock that is not a number.
    pub fn from_fen(fen: &str) -> (r: Option<Board>)
        ensures
            match fen_position(fen@) {
                Some(m) => r is Some && r->0@ == m && m.wf(),
                None => r is None,
            },
    {
        let text = chars_of(fen);
        let fields = split_fields(&text);
        let ghost f = fields_of(fen@);
        if fields.len() < 4 {
            return None;
        }
        assert(fields@[0]@ == f[0] && fields@[1]@ == f[1] && fields@[2]@ == f[2] && fields@[3]@ == f[3]);
        let placement = &fields[0];
        let mut squares: Vec<Option<Piece>> = Vec::new();
        let mut k: usize = 0;
        while k < 64
            invariant
                k <= 64,
                squares@ == Seq::new(k as nat, |i: int| None::<Piece>),
            decreases 64 - k,
        {
            squares.push(None);
            k = k + 1;
            assert(squares@ =~= Seq::new(k as nat, |i: int| None::<Piece>));
        }
        let mut x: usize = 0;
        let mut y: usize = 7;
        let mut i: usize = 0;
        while i < placement.len()
            invariant
                i <= placement@.len(),
                placement@ == fields_of(fen@)[0],
                fields_of(fen@).len() >= 4,
                squares@.len() == 64,
                x <= 8 && y < 8,
                place_from(placement@, i as int, Placement { grid: squares@, x: x as int, y: y as int })
                    == place_from(placement@, 0, empty_placement()),
            decreases placement@.len() - i,
        {
            let c = placement[i];
            let ghost st = Placement { grid: squares@, x: x as int, y: y as int };
            assert(c == placement@[i as int]);
            if c == '/' {
                if y == 0 {
                    assert(place_from(placement@, i as int, st) is None);
                    return None;
                }
                x = 0;
                y = y - 1;
            } else if '1' <= c && c <= '8' {
                let nx = x + (c as u32 - '0' as u32) as usize;
                if nx > 8 {
                    assert(place_from(placement@, i as int, st) is None);
                    return None;
                }
                x = nx;
            } else {
                match Piece::from_fen(c) {
                    None => {
                        assert(place_from(placement@, i as int, st) is None);
                        return None;
                    },
                    Some(p) => {
                        if x >= 8 {
                            assert(place_from(placement@, i as int, st) is None);
                            return None;
                        }
                        squares.set(y * 8 + x, Some(p));
                        x = x + 1;
                    },
                }
            }
            i = i + 1;
        }
        let turn = if fields[1].len() == 1 && fields[1][0] == 'w' {
            assert(fields@[1]@ =~= seq!['w']);
            Color::White
        } else if fields[1].len() == 1 && fields[1][0] == 'b' {
            assert(fields@[1]@ =~= seq!['b']);
            Color::Black
        } else {
            assert(turn_of(f[1]).is_none()) by {
                if f[1] == seq!['w'] || f[1] == seq!['b'] {
                    assert(f[1].len() == 1);
                }
            };
            return None;
        };
        let castling = (has_char(&fields[2], 'K'), has_char(&fields[2], 'Q'), has_char(&fields[2], 'k'), has_char(&fields[2], 'q'));
        let ep_field = &fields[3];
        let en_passant = if ep_field.len() == 1 && ep_field[0] == '-' {
            assert(ep_field@ =~= seq!['-']);
            None
        } else {
            assert(ep_field@ != seq!['-']) by {
                if ep_field@ == seq!['-'] {
                    assert(ep_field@.len() == 1 && ep_field@[0] == '-');
                }
            };
            if ep_field.len() != 2 {
                return None;
            }
            assert(ep_field@.subrange(0, 2) =~= ep_field@);
            match square_at(ep_field, 0) {
                Some(q) => Some(q),
                None => return None,
            }
        };
        let halfmove = if fields.len() > 4 {
            assert(fields@[4]@ == f[4]);
            match parse_number(&fields[4]) {
                Some(n) => n,
                None => return None,
            }
        } else {
            0
        };
        let move_number = if fields.len() > 5 {
            assert(fields@[5]@ == f[5]);
            match parse_number(&fields[5]) {
                Some(n) => n,
                None => return None,
            }
        } else {
            1
        };
        let wk = find_king(&squares, Color::White);
        let bk = find_king(&squares, Color::Black);
        Some(Board::from_parts(squares, turn, castling, en_passant, halfmove, move_number, wk, bk))
    }
}

} // verus!
