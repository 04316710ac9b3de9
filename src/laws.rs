//! The laws of the turns: conservation, inverses, order four, double turns
//! and the notation of the front face.

use vstd::prelude::*;

use crate::counting::{lemma_quarter_count, lemma_rows_stickers_count};
use crate::engine::{quarter, quarter_inv};
use crate::facelet::Stiker;
use crate::geometry::Face;
use crate::moves::{Move, Amount, Sense, apply_move, undo_move, inverse_of, double_of};
use crate::net::{Grid, is_grid, count, stickers};
use crate::notation::{run, tokens, tokens_from, token_move};
use crate::pointwise::{quarter_source, quarter_inv_source, lemma_sources, lemma_quarter_at, lemma_same_grid};

verus! {

/// Undoing a move after making it gives back the net, and so does making
/// the move that turns the other way.
pub proof fn lemma_inverse_undoes(g: Grid, m: Move)
    requires
        is_grid(g),
    ensures
        undo_move(apply_move(g, m), m) == g,
        apply_move(apply_move(g, m), inverse_of(m)) == g,
{
    let f = m.face;
    let h = apply_move(g, m);
    let u = undo_move(h, m);
    let w = apply_move(h, inverse_of(m));
    assert forall|r: int, c: int| 0 <= r < 9 && 0 <= c < 12 implies #[trigger] u[r][c] == g[r][c] && w[r][c] == g[r][c] by {
        let p = (r, c);
        lemma_sources(f, p);
        lemma_quarter_at(g, f, p);
        lemma_quarter_at(h, f, p);
        let a = quarter_source(f, p);
        let b = quarter_inv_source(f, p);
        lemma_sources(f, a);
        lemma_sources(f, b);
        lemma_quarter_at(g, f, a);
        lemma_quarter_at(g, f, b);
        if m.amount == Amount::Double {
            let q1 = quarter(g, f);
            lemma_quarter_at(q1, f, p);
            lemma_quarter_at(q1, f, a);
            lemma_quarter_at(q1, f, b);
            let hb = quarter_inv(h, f);
            lemma_quarter_at(hb, f, p);
            let ha = quarter(h, f);
            lemma_quarter_at(ha, f, p);
            lemma_quarter_at(h, f, a);
            lemma_quarter_at(h, f, b);
            let bb = quarter_inv_source(f, b);
            let aa = quarter_source(f, a);
            lemma_sources(f, bb);
            lemma_sources(f, aa);
            lemma_quarter_at(q1, f, bb);
            lemma_quarter_at(q1, f, aa);
            lemma_quarter_at(g, f, bb);
            lemma_quarter_at(g, f, aa);
            lemma_quarter_at(g, f, quarter_source(f, bb));
            lemma_quarter_at(g, f, quarter_source(f, aa));
        }
    }
    lemma_quarter_at(g, f, (0, 0));
    lemma_quarter_at(h, f, (0, 0));
    lemma_quarter_at(quarter(g, f), f, (0, 0));
    lemma_quarter_at(quarter(h, f), f, (0, 0));
    lemma_quarter_at(quarter_inv(h, f), f, (0, 0));
    lemma_same_grid(u, g);
    lemma_same_grid(w, g);
}

/// Four clockwise quarter turns of a face move every facelet back, and so do
/// four counter-clockwise ones.
proof fn lemma_quarter_four_times(g: Grid, f: Face)
    requires
        is_grid(g),
    ensures
        quarter(quarter(quarter(quarter(g, f), f), f), f) == g,
        quarter_inv(quarter_inv(quarter_inv(quarter_inv(g, f), f), f), f) == g,
{
    let g1 = quarter(g, f);
    let g2 = quarter(g1, f);
    let g3 = quarter(g2, f);
    let g4 = quarter(g3, f);
    let h1 = quarter_inv(g, f);
    let h2 = quarter_inv(h1, f);
    let h3 = quarter_inv(h2, f);
    let h4 = quarter_inv(h3, f);
    assert forall|r: int, c: int| 0 <= r < 9 && 0 <= c < 12 implies #[trigger] g4[r][c] == g[r][c] && h4[r][c] == g[r][c] by {
        let p = (r, c);
        lemma_sources(f, p);
        let a1 = quarter_source(f, p);
        lemma_sources(f, a1);
        let a2 = quarter_source(f, a1);
        lemma_sources(f, a2);
        let a3 = quarter_source(f, a2);
        lemma_quarter_at(g3, f, p);
        lemma_quarter_at(g2, f, a1);
        lemma_quarter_at(g1, f, a2);
        lemma_quarter_at(g, f, a3);
        let b1 = quarter_inv_source(f, p);
        lemma_sources(f, b1);
        let b2 = quarter_inv_source(f, b1);
        lemma_sources(f, b2);
        let b3 = quarter_inv_source(f, b2);
        lemma_sources(f, b3);
        let b4 = quarter_inv_source(f, b3);
        lemma_sources(f, b4);
        lemma_quarter_at(h3, f, p);
        lemma_quarter_at(h2, f, b1);
        lemma_quarter_at(h1, f, b2);
        lemma_quarter_at(g, f, b3);
        // b4 is p: four forward steps from b4 come back to p, and four
        // forward steps from any cell return to it.
        assert(quarter_source(f, b4) == b3);
        assert(quarter_source(f, b3) == b2);
        assert(quarter_source(f, b2) == b1);
        assert(quarter_source(f, b1) == p);
    }
    lemma_quarter_at(g, f, (0, 0));
    lemma_quarter_at(g3, f, (0, 0));
    lemma_quarter_at(h3, f, (0, 0));
    lemma_same_grid(g4, g);
    lemma_same_grid(h4, g);
}

/// A quarter-turn move made four times leaves the net as it was.
pub proof fn lemma_four_quarter_turns(g: Grid, m: Move)
    requires
        is_grid(g),
        m.amount == Amount::Quarter,
    ensures
        apply_move(apply_move(apply_move(apply_move(g, m), m), m), m) == g,
{
    lemma_quarter_four_times(g, m.face);
}

/// A double-turn move made twice leaves the net as it was.
pub proof fn lemma_two_double_turns(g: Grid, m: Move)
    requires
        is_grid(g),
        m.amount == Amount::Double,
    ensures
        apply_move(apply_move(g, m), m) == g,
{
    lemma_quarter_four_times(g, m.face);
}

/// The double turn of a face is its quarter-turn move made twice, in
/// either sense.
pub proof fn lemma_double_is_two_quarters(g: Grid, m: Move)
    requires
        is_grid(g),
        m.amount == Amount::Quarter,
    ensures
        apply_move(g, double_of(m)) == apply_move(apply_move(g, m), m),
{
    let f = m.face;
    if m.sense == Sense::CounterClockwise {
        let a = quarter(quarter(g, f), f);
        let b = quarter_inv(quarter_inv(g, f), f);
        assert forall|r: int, c: int| 0 <= r < 9 && 0 <= c < 12 implies #[trigger] a[r][c] == b[r][c] by {
            let p = (r, c);
            lemma_sources(f, p);
            lemma_quarter_at(quarter(g, f), f, p);
            lemma_quarter_at(quarter_inv(g, f), f, p);
            lemma_quarter_at(g, f, quarter_source(f, p));
            lemma_quarter_at(g, f, quarter_inv_source(f, p));
        }
        lemma_quarter_at(g, f, (0, 0));
        lemma_quarter_at(quarter(g, f), f, (0, 0));
        lemma_quarter_at(quarter_inv(g, f), f, (0, 0));
        lemma_same_grid(a, b);
    }
}

/// A move, and its undoing, keep the number of facelets of each colour: no
/// facelet is created, destroyed or recoloured, only moved.
pub proof fn lemma_move_conserves(g: Grid, m: Move, x: Stiker)
    requires
        is_grid(g),
    ensures
        count(apply_move(g, m), x) == count(g, x),
        count(undo_move(g, m), x) == count(g, x),
{
    let f = m.face;
    lemma_quarter_count(g, f, x);
    lemma_quarter_count(quarter(g, f), f, x);
    lemma_quarter_count(quarter_inv(g, f), f, x);
}

/// Conservation: a move, and its undoing, leave the multiset of the net's
/// stickers unchanged.
pub proof fn lemma_move_keeps_stickers(g: Grid, m: Move)
    requires
        is_grid(g),
    ensures
        stickers(apply_move(g, m)) == stickers(g),
        stickers(undo_move(g, m)) == stickers(g),
{
    let a = apply_move(g, m);
    let u = undo_move(g, m);
    lemma_quarter_count(g, m.face, Stiker::V);
    lemma_quarter_count(quarter(g, m.face), m.face, Stiker::V);
    lemma_quarter_count(quarter_inv(g, m.face), m.face, Stiker::V);
    assert forall|x: Stiker| #[trigger] stickers(a).count(x) == stickers(g).count(x)
        && stickers(u).count(x) == stickers(g).count(x) by {
        lemma_move_conserves(g, m, x);
        lemma_rows_stickers_count(g, x, 9);
        lemma_rows_stickers_count(a, x, 9);
        lemma_rows_stickers_count(u, x, 9);
    }
    assert(stickers(a) =~= stickers(g));
    assert(stickers(u) =~= stickers(g));
}


/// Notation: `F` is a clockwise quarter turn of the front face, `F'` its
/// counter-clockwise turn, `F2` two clockwise quarter turns, and `bogus` is
/// refused with the net left as it was.
pub proof fn lemma_front_notation(g: Grid)
    ensures
        run(g, tokens("F"@)) == (quarter(g, Face::Front), true),
        run(g, tokens("F'"@)) == (quarter_inv(g, Face::Front), true),
        run(g, tokens("F2"@)) == (quarter(quarter(g, Face::Front), Face::Front), true),
        run(g, tokens("bogus"@)) == (g, false),
{
    reveal_strlit("F");
    reveal_strlit("F'");
    reveal_strlit("F2");
    reveal_strlit("bogus");
    let f = "F"@;
    assert(tokens_from(f, 1, seq!['F']) == seq![seq!['F']]);
    assert(seq![].push('F') =~= seq!['F']);
    assert(tokens(f) == seq![seq!['F']]);
    assert(seq![seq!['F']].drop_last() =~= seq![]);
    assert(run(g, seq![]) == (g, true));
    assert(token_move(seq!['F']) == Some(Move { face: Face::Front, amount: Amount::Quarter, sense: Sense::Clockwise }));
    assert(run(g, seq![seq!['F']]) == (quarter(g, Face::Front), true));
    let fp = "F'"@;
    assert(seq!['F'].push('\'') =~= seq!['F', '\'']);
    assert(tokens_from(fp, 2, seq!['F', '\'']) == seq![seq!['F', '\'']]);
    assert(tokens_from(fp, 1, seq!['F']) == seq![seq!['F', '\'']]);
    assert(tokens(fp) == seq![seq!['F', '\'']]);
    assert(seq![seq!['F', '\'']].drop_last() =~= seq![]);
    assert(run(g, seq![seq!['F', '\'']]) == (quarter_inv(g, Face::Front), true));
    let f2 = "F2"@;
    assert(seq!['F'].push('2') =~= seq!['F', '2']);
    assert(tokens_from(f2, 2, seq!['F', '2']) == seq![seq!['F', '2']]);
    assert(tokens_from(f2, 1, seq!['F']) == seq![seq!['F', '2']]);
    assert(tokens(f2) == seq![seq!['F', '2']]);
    assert(seq![seq!['F', '2']].drop_last() =~= seq![]);
    let b = "bogus"@;
    let w = seq!['b', 'o', 'g', 'u', 's'];
    assert(seq!['b'].push('o') =~= seq!['b', 'o']);
    assert(seq!['b', 'o'].push('g') =~= seq!['b', 'o', 'g']);
    assert(seq!['b', 'o', 'g'].push('u') =~= seq!['b', 'o', 'g', 'u']);
    assert(seq!['b', 'o', 'g', 'u'].push('s') =~= w);
    assert(tokens_from(b, 5, w) == seq![w]);
    assert(tokens_from(b, 4, seq!['b', 'o', 'g', 'u']) == seq![w]);
    assert(tokens_from(b, 3, seq!['b', 'o', 'g']) == seq![w]);
    assert(tokens_from(b, 2, seq!['b', 'o']) == seq![w]);
    assert(tokens_from(b, 1, seq!['b']) == seq![w]);
    assert(seq![].push('b') =~= seq!['b']);
    assert(tokens(b) == seq![w]);
    assert(seq![w].drop_last() =~= seq![]);
}

} // verus!
