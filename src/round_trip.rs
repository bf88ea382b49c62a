//! Writing a position as FEN and reading it back gives the same position.
use vstd::prelude::*;
use crate::color::Color;
use crate::fen::{
    Placement, place_step, place_from, empty_placement, king_scan, split_from, fields_of, rank_text, placement_text,
    castling_text, square_text, fen_text, fen_position, number_of, digits_value, all_digits, is_digit, turn_of,
    en_passant_of, counter_of,
};
use crate::notation::{is_ws, decimal, digit_char, square_of};
use crate::piece::{Piece, piece_letter, piece_of_letter};
use crate::rules::{BoardModel, cell, on_board};

verus! {

pub open spec fn no_ws(s: Seq<char>) -> bool {
    forall|k: int| 0 <= k < s.len() ==> !is_ws(#[trigger] s[k])
}

/// Words separated by single spaces, first word first.
pub open spec fn spaced(ws: Seq<Seq<char>>) -> Seq<char>
    decreases ws.len(),
{
    if ws.len() <= 1 {
        if ws.len() == 1 { ws[0] } else { Seq::empty() }
    } else {
        ws[0] + seq![' '] + spaced(ws.drop_first())
    }
}

proof fn lemma_split_word(s: Seq<char>, i: int, j: int, cur: Seq<char>, acc: Seq<Seq<char>>)
    requires
        0 <= i <= j <= s.len(),
        forall|k: int| i <= k < j ==> !is_ws(#[trigger] s[k]),
    ensures
        split_from(s, i, cur, acc) == split_from(s, j, cur + s.subrange(i, j), acc),
    decreases j - i,
{
    if i == j {
        assert(cur + s.subrange(i, j) =~= cur);
    } else {
        lemma_split_word(s, i + 1, j, cur.push(s[i]), acc);
        assert(cur.push(s[i]) + s.subrange(i + 1, j) =~= cur + s.subrange(i, j));
    }
}

proof fn lemma_split_spaced(pre: Seq<char>, ws: Seq<Seq<char>>, acc: Seq<Seq<char>>)
    requires
        ws.len() >= 1,
        forall|k: int| 0 <= k < ws.len() ==> (#[trigger] ws[k]).len() > 0 && no_ws(ws[k]),
    ensures
        split_from(pre + spaced(ws), pre.len() as int, Seq::empty(), acc) == acc + ws,
    decreases ws.len(),
{
    let w = ws[0];
    let s = pre + spaced(ws);
    let i = pre.len() as int;
    let j = i + w.len();
    assert(no_ws(w));
    if ws.len() == 1 {
        assert(s =~= pre + w);
        assert forall|k: int| i <= k < j implies !is_ws(#[trigger] s[k]) by {
            assert(s[k] == w[k - i]);
        };
        lemma_split_word(s, i, j, Seq::empty(), acc);
        assert(Seq::<char>::empty() + s.subrange(i, j) =~= w);
        assert(acc.push(w) =~= acc + ws);
    } else {
        let rest = ws.drop_first();
        let pre2 = pre + w + seq![' '];
        assert(s =~= pre2 + spaced(rest));
        assert forall|k: int| i <= k < j implies !is_ws(#[trigger] s[k]) by {
            assert(s[k] == w[k - i]);
        };
        lemma_split_word(s, i, j, Seq::empty(), acc);
        assert(Seq::<char>::empty() + s.subrange(i, j) =~= w);
        assert(s[j] == ' ');
        assert(split_from(s, j, w, acc) == split_from(s, j + 1, Seq::empty(), acc.push(w)));
        assert forall|k: int| 0 <= k < rest.len() implies (#[trigger] rest[k]).len() > 0 && no_ws(rest[k]) by {
            assert(rest[k] == ws[k + 1]);
        };
        lemma_split_spaced(pre2, rest, acc.push(w));
        assert(pre2.len() == j + 1);
        assert(acc.push(w) + rest =~= acc + ws);
    }
}

proof fn lemma_no_ws_concat(a: Seq<char>, b: Seq<char>)
    requires
        no_ws(a),
        no_ws(b),
    ensures
        no_ws(a + b),
{
    assert forall|k: int| 0 <= k < (a + b).len() implies !is_ws(#[trigger] (a + b)[k]) by {
        if k < a.len() {
            assert((a + b)[k] == a[k]);
        } else {
            assert((a + b)[k] == b[k - a.len()]);
        }
    };
}

proof fn lemma_letter_round_trip(p: Piece)
    ensures
        piece_of_letter(piece_letter(p)) == Some(p),
        !is_ws(piece_letter(p)),
        !('1' <= piece_letter(p) && piece_letter(p) <= '8'),
        piece_letter(p) != '/',
{
}

proof fn lemma_rank_text_shape(b: BoardModel, y: int, x: int, run: nat)
    requires
        0 <= x <= 8,
        run <= x,
    ensures
        no_ws(rank_text(b, y, x, run)),
        (x < 8 || run > 0) ==> rank_text(b, y, x, run).len() > 0,
    decreases 8 - x,
{
    let pending = if run > 0 { seq![digit_char(run as int)] } else { Seq::<char>::empty() };
    if run > 0 {
        assert(pending[0] == digit_char(run as int));
        assert('1' <= digit_char(run as int) <= '8');
    }
    assert(no_ws(pending));
    if x < 8 {
        match b.at(x, y) {
            None => {
                lemma_rank_text_shape(b, y, x + 1, run + 1);
            },
            Some(p) => {
                lemma_rank_text_shape(b, y, x + 1, 0);
                lemma_letter_round_trip(p);
                assert(no_ws(seq![piece_letter(p)]));
                lemma_no_ws_concat(pending, seq![piece_letter(p)]);
                lemma_no_ws_concat(pending + seq![piece_letter(p)], rank_text(b, y, x + 1, 0));
            },
        }
    }
}

proof fn lemma_placement_text_shape(b: BoardModel, y: int)
    ensures
        no_ws(placement_text(b, y)),
        placement_text(b, y).len() > 0,
    decreases y,
{
    if y <= 0 {
        lemma_rank_text_shape(b, 0, 0, 0);
    } else {
        lemma_rank_text_shape(b, y, 0, 0);
        lemma_placement_text_shape(b, y - 1);
        assert(no_ws(seq!['/']));
        lemma_no_ws_concat(rank_text(b, y, 0, 0), seq!['/']);
        lemma_no_ws_concat(rank_text(b, y, 0, 0) + seq!['/'], placement_text(b, y - 1));
    }
}

proof fn lemma_decimal(n: nat)
    ensures
        decimal(n).len() > 0,
        all_digits(decimal(n)),
        no_ws(decimal(n)),
        digits_value(decimal(n)) == n,
    decreases n,
{
    if n >= 10 {
        lemma_decimal(n / 10);
        let d = decimal(n);
        assert(d.drop_last() =~= decimal(n / 10));
        assert(all_digits(d)) by {
            assert forall|k: int| 0 <= k < d.len() implies is_digit(#[trigger] d[k]) by {
                if k < d.len() - 1 {
                    assert(d[k] == decimal(n / 10)[k]);
                }
            };
        };
        assert((n / 10) * 10 + n % 10 == n) by (nonlinear_arith);
        assert(d.last() == digit_char((n % 10) as int));
        assert((d.last() as u32) - ('0' as u32) == n % 10);
        assert(digits_value(d) == digits_value(d.drop_last()) * 10 + ((d.last() as u32) - ('0' as u32)));
        assert(digits_value(d.drop_last()) == n / 10);
    } else {
        let d = decimal(n);
        assert(d.drop_last() =~= Seq::<char>::empty());
        assert(d.last() == digit_char(n as int));
        assert((d.last() as u32) - ('0' as u32) == n);
        assert(digits_value(d) == digits_value(d.drop_last()) * 10 + ((d.last() as u32) - ('0' as u32)));
        assert(digits_value(d.drop_last()) == 0);
    }
}

proof fn lemma_number_of_decimal(n: u32)
    ensures
        number_of(decimal(n as nat)) == Some(n),
{
    lemma_decimal(n as nat);
}

/// Reading a text `t` that stands at index `i` of `cs` continues reading `cs`
/// after `t` from the state that `t` leads to.
proof fn lemma_place_prefix(cs: Seq<char>, i: int, t: Seq<char>, j: int, st: Placement)
    requires
        0 <= i,
        0 <= j <= t.len(),
        i + t.len() <= cs.len(),
        cs.subrange(i, i + t.len()) == t,
    ensures
        place_from(cs, i + j, st) == match place_from(t, j, st) {
            Some(s2) => place_from(cs, i + t.len(), s2),
            None => None,
        },
    decreases t.len() - j,
{
    if j < t.len() {
        assert(cs[i + j] == t[j]);
        match place_step(t[j], st) {
            Some(next) => lemma_place_prefix(cs, i, t, j + 1, next),
            None => {},
        }
    }
}

/// `g2` is `g1` with the pieces of `b` on rank `y` from file `from` on.
pub open spec fn fills_rank(g2: Seq<Option<Piece>>, g1: Seq<Option<Piece>>, b: BoardModel, y: int, from: int) -> bool {
    &&& g2.len() == 64
    &&& forall|xx: int, yy: int|
        on_board(xx, yy) ==> #[trigger] g2[cell(xx, yy)] == if yy == y && xx >= from && b.at(xx, yy) is Some {
            b.at(xx, yy)
        } else {
            g1[cell(xx, yy)]
        }
}

proof fn lemma_place_rank(b: BoardModel, y: int, x: int, run: nat, st: Placement)
    requires
        b.wf(),
        0 <= y < 8,
        0 <= run <= x <= 8,
        st.y == y,
        st.x == x - run,
        st.grid.len() == 64,
        forall|xx: int| x - run <= xx < x ==> b.at(xx, y) is None,
    ensures
        place_from(rank_text(b, y, x, run), 0, st) matches Some(st2) && st2.x == 8 && st2.y == y && fills_rank(
            st2.grid,
            st.grid,
            b,
            y,
            x - run,
        ),
    decreases 8 - x,
{
    let text = rank_text(b, y, x, run);
    let pending = if run > 0 { seq![digit_char(run as int)] } else { Seq::<char>::empty() };
    let st1 = Placement { grid: st.grid, x: x as int, y };
    if run > 0 {
        assert(place_step(digit_char(run as int), st) == Some(st1));
    }
    assert(place_from(pending, 0, st) == Some(st1)) by {
        if run > 0 {
            assert(place_from(pending, 1, st1) == Some(st1));
        }
    };
    if x >= 8 {
        assert(text == pending);
        assert(fills_rank(st1.grid, st.grid, b, y, x - run));
    } else {
        match b.at(x, y) {
            None => {
                lemma_place_rank(b, y, x + 1, run + 1, st);
            },
            Some(p) => {
                let rest = rank_text(b, y, x + 1, 0);
                let letter = seq![piece_letter(p)];
                assert(text == pending + letter + rest);
                lemma_letter_round_trip(p);
                let st2 = Placement { grid: st.grid.update(cell(x, y), Some(p)), x: x + 1, y };
                assert(place_step(piece_letter(p), st1) == Some(st2));
                assert(place_from(letter, 1, st2) == Some(st2));
                assert(place_from(letter, 0, st1) == Some(st2));
                lemma_place_rank(b, y, x + 1, 0, st2);
                let st3 = place_from(rest, 0, st2)->Some_0;
                assert(text.subrange(0, pending.len() as int) =~= pending);
                lemma_place_prefix(text, 0, pending, 0, st);
                assert(text.subrange(pending.len() as int, pending.len() as int + 1) =~= letter);
                lemma_place_prefix(text, pending.len() as int, letter, 0, st1);
                assert(text.subrange(pending.len() as int + 1, text.len() as int) =~= rest);
                lemma_place_prefix(text, pending.len() as int + 1, rest, 0, st2);
                assert(place_from(text, text.len() as int, st3) == Some(st3));
                assert forall|xx: int, yy: int| on_board(xx, yy) implies #[trigger] st3.grid[cell(xx, yy)] == if yy == y
                    && xx >= x - run && b.at(xx, yy) is Some {
                    b.at(xx, yy)
                } else {
                    st.grid[cell(xx, yy)]
                } by {
                    if yy == y && xx == x {
                        assert(st2.grid[cell(xx, yy)] == Some(p));
                    } else {
                        assert(cell(xx, yy) != cell(x, y));
                    }
                };
            },
        }
    }
}

/// `g2` is `g1` with the pieces of `b` on ranks `y` and below.
pub open spec fn fills_below(g2: Seq<Option<Piece>>, g1: Seq<Option<Piece>>, b: BoardModel, y: int) -> bool {
    &&& g2.len() == 64
    &&& forall|xx: int, yy: int|
        on_board(xx, yy) ==> #[trigger] g2[cell(xx, yy)] == if yy <= y && b.at(xx, yy) is Some {
            b.at(xx, yy)
        } else {
            g1[cell(xx, yy)]
        }
}

proof fn lemma_place_ranks(b: BoardModel, y: int, st: Placement)
    requires
        b.wf(),
        0 <= y < 8,
        st.y == y,
        st.x == 0,
        st.grid.len() == 64,
    ensures
        place_from(placement_text(b, y), 0, st) matches Some(st2) && fills_below(st2.grid, st.grid, b, y),
    decreases y,
{
    lemma_place_rank(b, y, 0, 0, st);
    let r = rank_text(b, y, 0, 0);
    let st1 = place_from(r, 0, st)->Some_0;
    if y == 0 {
        assert(fills_below(st1.grid, st.grid, b, y));
    } else {
        let text = placement_text(b, y);
        let below = placement_text(b, y - 1);
        assert(text == r + seq!['/'] + below);
        let st2 = Placement { grid: st1.grid, x: 0, y: y - 1 };
        assert(place_step('/', st1) == Some(st2));
        assert(place_from(seq!['/'], 1, st2) == Some(st2));
        lemma_place_ranks(b, y - 1, st2);
        let st3 = place_from(below, 0, st2)->Some_0;
        assert(text.subrange(0, r.len() as int) =~= r);
        lemma_place_prefix(text, 0, r, 0, st);
        assert(text.subrange(r.len() as int, r.len() as int + 1) =~= seq!['/']);
        lemma_place_prefix(text, r.len() as int, seq!['/'], 0, st1);
        assert(text.subrange(r.len() as int + 1, text.len() as int) =~= below);
        lemma_place_prefix(text, r.len() as int + 1, below, 0, st2);
        assert(place_from(text, text.len() as int, st3) == Some(st3));
        assert(fills_below(st3.grid, st.grid, b, y));
    }
}

proof fn lemma_placement_grid(b: BoardModel)
    requires
        b.wf(),
    ensures
        place_from(placement_text(b, 7), 0, empty_placement()) matches Some(st) && st.grid == b.grid,
{
    let st0 = empty_placement();
    lemma_place_ranks(b, 7, st0);
    let st = place_from(placement_text(b, 7), 0, st0)->Some_0;
    assert forall|k: int| 0 <= k < 64 implies st.grid[k] == b.grid[k] by {
        let xx = k % 8;
        let yy = k / 8;
        assert(cell(xx, yy) == k);
        assert(on_board(xx, yy));
    };
    assert(st.grid =~= b.grid);
}

proof fn lemma_place_keeps_length(cs: Seq<char>, i: int, st: Placement)
    requires
        st.grid.len() == 64,
        0 <= st.x <= 8,
        0 <= st.y < 8,
    ensures
        place_from(cs, i, st) matches Some(s2) ==> s2.grid.len() == 64,
    decreases cs.len() - i,
{
    if 0 <= i < cs.len() {
        match place_step(cs[i], st) {
            Some(next) => lemma_place_keeps_length(cs, i + 1, next),
            None => {},
        }
    }
}

proof fn lemma_castling_text(b: BoardModel)
    ensures
        castling_text(b).len() > 0,
        no_ws(castling_text(b)),
        castling_text(b).contains('K') == b.wk_castle,
        castling_text(b).contains('Q') == b.wq_castle,
        castling_text(b).contains('k') == b.bk_castle,
        castling_text(b).contains('q') == b.bq_castle,
{
    let a = if b.wk_castle { seq!['K'] } else { Seq::<char>::empty() };
    let q = if b.wq_castle { seq!['Q'] } else { Seq::<char>::empty() };
    let c = if b.bk_castle { seq!['k'] } else { Seq::<char>::empty() };
    let d = if b.bq_castle { seq!['q'] } else { Seq::<char>::empty() };
    let t = a + q + c + d;
    let s = castling_text(b);
    assert forall|k: int| 0 <= k < t.len() implies (#[trigger] t[k] == 'K' && b.wk_castle) || (t[k] == 'Q'
        && b.wq_castle) || (t[k] == 'k' && b.bk_castle) || (t[k] == 'q' && b.bq_castle) by {
        if k < a.len() {
            assert(t[k] == a[k]);
        } else if k < a.len() + q.len() {
            assert(t[k] == q[k - a.len()]);
        } else if k < a.len() + q.len() + c.len() {
            assert(t[k] == c[k - a.len() - q.len()]);
        } else {
            assert(t[k] == d[k - a.len() - q.len() - c.len()]);
        }
    };
    if b.wk_castle {
        assert(t[0] == 'K');
    }
    if b.wq_castle {
        assert(t[a.len() as int] == 'Q');
    }
    if b.bk_castle {
        assert(t[a.len() as int + q.len()] == 'k');
    }
    if b.bq_castle {
        assert(t[a.len() as int + q.len() + c.len()] == 'q');
    }
    if t.len() == 0 {
        assert(s == seq!['-']);
        assert(!b.wk_castle && !b.wq_castle && !b.bk_castle && !b.bq_castle);
        assert(!s.contains('K') && !s.contains('Q') && !s.contains('k') && !s.contains('q'));
    }
}

proof fn lemma_spaced_step(ws: Seq<Seq<char>>, i: int)
    requires
        0 <= i < ws.len(),
    ensures
        spaced(ws.subrange(i, ws.len() as int)) == if i == ws.len() - 1 {
            ws[i]
        } else {
            ws[i] + seq![' '] + spaced(ws.subrange(i + 1, ws.len() as int))
        },
{
    let t = ws.subrange(i, ws.len() as int);
    assert(t[0] == ws[i]);
    if i < ws.len() - 1 {
        assert(t.drop_first() =~= ws.subrange(i + 1, ws.len() as int));
    }
}

proof fn lemma_spaced_six(w0: Seq<char>, w1: Seq<char>, w2: Seq<char>, w3: Seq<char>, w4: Seq<char>, w5: Seq<char>)
    ensures
        spaced(seq![w0, w1, w2, w3, w4, w5]) =~= w0 + seq![' '] + w1 + seq![' '] + w2 + seq![' '] + w3 + seq![' '] + w4
            + seq![' '] + w5,
{
    let ws = seq![w0, w1, w2, w3, w4, w5];
    lemma_spaced_step(ws, 5);
    lemma_spaced_step(ws, 4);
    lemma_spaced_step(ws, 3);
    lemma_spaced_step(ws, 2);
    lemma_spaced_step(ws, 1);
    lemma_spaced_step(ws, 0);
    assert(ws.subrange(0, 6) =~= ws);
}

proof fn lemma_fen_text_spaced(b: BoardModel)
    ensures
        fen_text(b) == spaced(fen_words(b)),
{
    let ws = fen_words(b);
    lemma_spaced_six(ws[0], ws[1], ws[2], ws[3], ws[4], ws[5]);
    assert(ws =~= seq![ws[0], ws[1], ws[2], ws[3], ws[4], ws[5]]);
    assert(fen_text(b) =~= spaced(ws));
}

pub open spec fn fen_words(b: BoardModel) -> Seq<Seq<char>> {
    seq![
        placement_text(b, 7),
        seq![if b.turn == Color::White { 'w' } else { 'b' }],
        castling_text(b),
        match b.en_passant {
            Some(s) => square_text(s),
            None => seq!['-'],
        },
        decimal(b.halfmove as nat),
        decimal(b.fullmove as nat),
    ]
}

proof fn lemma_fen_fields(b: BoardModel)
    requires
        b.wf(),
    ensures
        fields_of(fen_text(b)) == fen_words(b),
{
    let ws = fen_words(b);
    lemma_fen_text_spaced(b);
    lemma_placement_text_shape(b, 7);
    lemma_castling_text(b);
    lemma_decimal(b.halfmove as nat);
    lemma_decimal(b.fullmove as nat);
    assert(no_ws(ws[1]));
    assert(no_ws(ws[3]));
    assert forall|k: int| 0 <= k < ws.len() implies (#[trigger] ws[k]).len() > 0 && no_ws(ws[k]) by {};
    lemma_split_spaced(Seq::empty(), ws, Seq::empty());
    assert(Seq::<char>::empty() + spaced(ws) =~= spaced(ws));
    assert(Seq::<Seq<char>>::empty() + ws =~= ws);
}

/// Writing a well-formed position as FEN and reading the text back gives
/// the same position, when its king squares are those that reading a FEN
/// text sets: the last king of each colour in FEN order.
pub proof fn fen_text_reads_back(b: BoardModel)
    requires
        b.wf(),
        b.white_king == king_scan(b.grid, Color::White, 64),
        b.black_king == king_scan(b.grid, Color::Black, 64),
    ensures
        fen_position(fen_text(b)) == Some(b),
{
    let ws = fen_words(b);
    lemma_fen_fields(b);
    lemma_castling_text(b);
    lemma_placement_grid(b);
    lemma_number_of_decimal(b.halfmove);
    lemma_number_of_decimal(b.fullmove);
    let fs = fields_of(fen_text(b));
    assert(counter_of(fs, 4, 0) == Some(b.halfmove));
    assert(counter_of(fs, 5, 1) == Some(b.fullmove));
    if b.turn == Color::White {
        assert(ws[1] =~= seq!['w']);
    } else {
        assert(ws[1] =~= seq!['b']);
        assert(ws[1] != seq!['w']) by {
            assert(ws[1][0] != seq!['w'][0]);
        };
    }
    assert(turn_of(ws[1]) == Some(b.turn));
    let e = ws[3];
    match b.en_passant {
        Some(s) => {
            assert(e != seq!['-']) by {
                if e == seq!['-'] {
                    assert(e[0] == '-');
                }
            };
            assert(square_of(e) == Some(s));
        },
        None => {
            assert(e =~= seq!['-']);
        },
    }
    assert(en_passant_of(e) == Some(b.en_passant));
}

/// Parsing a FEN text, writing the position back as FEN and parsing that
/// gives the position of the first parse, field for field.
pub proof fn fen_round_trip(s: Seq<char>)
    requires
        fen_position(s) is Some,
    ensures
        fen_position(fen_text(fen_position(s)->Some_0)) == fen_position(s),
{
    let b = fen_position(s)->Some_0;
    let f = fields_of(s);
    lemma_place_keeps_length(f[0], 0, empty_placement());
    let pl = place_from(f[0], 0, empty_placement())->Some_0;
    crate::fen::lemma_king_scan_on_board(pl.grid, Color::White, 64);
    crate::fen::lemma_king_scan_on_board(pl.grid, Color::Black, 64);
    fen_text_reads_back(b);
}

} // verus!
