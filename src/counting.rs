//! Counting facelets: a four-cycle, and so every turn, keeps the number of
//! facelets of each colour.

use vstd::prelude::*;

use crate::engine::{
    corners, edges, cycle, quarter, quarter_inv, lemma_table_ok, lemma_strips_reverse, lemma_reverse4,
    is_ring, strips_ok, strip_turn, strip_ring, center_turn, center_turn_inv,
};
use crate::facelet::Stiker;
use crate::geometry::{Face, center_of, starts_of, steps_of};
use crate::net::{Grid, Pos, in_net, is_grid, cell, count, row_count, rows_count, row_stickers, rows_stickers};
use crate::pointwise::{lemma_cycle_at, lemma_quarter_at, lemma_same_grid};

verus! {

pub open spec fn indicator(b: bool) -> int {
    if b { 1 } else { 0 }
}

/// The net with the facelet at `p` replaced by `v`.
pub open spec fn set_cell(g: Grid, p: Pos, v: Stiker) -> Grid {
    g.update(p.0, g[p.0].update(p.1, v))
}

pub(crate) proof fn lemma_row_count_update(row: Seq<Stiker>, i: int, v: Stiker, x: Stiker, n: int)
    requires
        0 <= i < row.len(),
        0 <= n <= row.len(),
    ensures
        row_count(row.update(i, v), x, n) == row_count(row, x, n) + if i < n {
            indicator(v == x) - indicator(row[i] == x)
        } else {
            0
        },
    decreases n,
{
    if n > 0 {
        lemma_row_count_update(row, i, v, x, n - 1);
    }
}

pub(crate) proof fn lemma_rows_count_update(g: Grid, p: Pos, v: Stiker, x: Stiker, n: int)
    requires
        is_grid(g),
        in_net(p),
        0 <= n <= 9,
    ensures
        rows_count(set_cell(g, p, v), x, n) == rows_count(g, x, n) + if p.0 < n {
            indicator(v == x) - indicator(cell(g, p) == x)
        } else {
            0
        },
    decreases n,
{
    if n > 0 {
        lemma_rows_count_update(g, p, v, x, n - 1);
        if p.0 == n - 1 {
            lemma_row_count_update(g[p.0], p.1, v, x, 12);
        }
    }
}

pub(crate) proof fn lemma_count_set_cell(g: Grid, p: Pos, v: Stiker, x: Stiker)
    requires
        is_grid(g),
        in_net(p),
    ensures
        is_grid(set_cell(g, p, v)),
        count(set_cell(g, p, v), x) == count(g, x) + indicator(v == x) - indicator(cell(g, p) == x),
{
    lemma_rows_count_update(g, p, v, x, 9);
    let h = set_cell(g, p, v);
    assert forall|r: int| 0 <= r < 9 implies #[trigger] h[r].len() == 12 by {}
}

/// One step of a four-cycle keeps the number of facelets of each kind.
pub(crate) proof fn lemma_cycle_count(g: Grid, q: Seq<Pos>, x: Stiker)
    requires
        is_grid(g),
        is_ring(q),
    ensures
        count(cycle(g, q), x) == count(g, x),
{
    let a0 = cell(g, q[0]);
    let a1 = cell(g, q[1]);
    let a2 = cell(g, q[2]);
    let a3 = cell(g, q[3]);
    let g1 = set_cell(g, q[0], a1);
    lemma_count_set_cell(g, q[0], a1, x);
    let g2 = set_cell(g1, q[1], a2);
    lemma_count_set_cell(g1, q[1], a2, x);
    let g3 = set_cell(g2, q[2], a3);
    lemma_count_set_cell(g2, q[2], a3, x);
    let g4 = set_cell(g3, q[3], a0);
    lemma_count_set_cell(g3, q[3], a0, x);
    assert forall|r: int, c: int| 0 <= r < 9 && 0 <= c < 12 implies #[trigger] g4[r][c] == cycle(g, q)[r][c] by {
        lemma_cycle_at(g, q, (r, c));
    }
    lemma_cycle_at(g, q, (0, 0));
    lemma_same_grid(g4, cycle(g, q));
}

pub(crate) proof fn lemma_strip_count(g: Grid, s: Seq<Pos>, d: Seq<Pos>, x: Stiker)
    requires
        is_grid(g),
        strips_ok(s, d),
    ensures
        is_grid(strip_turn(g, s, d)),
        count(strip_turn(g, s, d), x) == count(g, x),
{
    let g1 = cycle(g, strip_ring(s, d, 0));
    let g2 = cycle(g1, strip_ring(s, d, 1));
    lemma_cycle_count(g, strip_ring(s, d, 0), x);
    lemma_cycle_at(g, strip_ring(s, d, 0), (0, 0));
    lemma_cycle_count(g1, strip_ring(s, d, 1), x);
    lemma_cycle_at(g1, strip_ring(s, d, 1), (0, 0));
    lemma_cycle_count(g2, strip_ring(s, d, 2), x);
    lemma_cycle_at(g2, strip_ring(s, d, 2), (0, 0));
}

/// A quarter turn, either way, keeps the number of facelets of each kind.
pub(crate) proof fn lemma_quarter_count(g: Grid, f: Face, x: Stiker)
    requires
        is_grid(g),
    ensures
        count(quarter(g, f), x) == count(g, x),
        count(quarter_inv(g, f), x) == count(g, x),
        is_grid(quarter(g, f)),
        is_grid(quarter_inv(g, f)),
{
    let s = starts_of(f);
    let d = steps_of(f);
    lemma_table_ok(f);
    lemma_strips_reverse(s, d);
    lemma_quarter_at(g, f, (0, 0));
    if let Some(c) = center_of(f) {
        let k = corners(c.0, c.1);
        let e = edges(c.0, c.1);
        lemma_reverse4(k);
        lemma_reverse4(e);
        lemma_cycle_count(g, k, x);
        lemma_cycle_at(g, k, (0, 0));
        lemma_cycle_count(cycle(g, k), e, x);
        lemma_cycle_at(cycle(g, k), e, (0, 0));
        lemma_cycle_count(g, k.reverse(), x);
        lemma_cycle_at(g, k.reverse(), (0, 0));
        lemma_cycle_count(cycle(g, k.reverse()), e.reverse(), x);
        lemma_cycle_at(cycle(g, k.reverse()), e.reverse(), (0, 0));
        lemma_strip_count(center_turn(g, c.0, c.1), s, d, x);
        lemma_strip_count(center_turn_inv(g, c.0, c.1), s.reverse(), d.reverse(), x);
    } else {
        lemma_strip_count(g, s, d, x);
        lemma_strip_count(g, s.reverse(), d.reverse(), x);
    }
}

proof fn lemma_row_stickers_count(row: Seq<Stiker>, x: Stiker, n: int)
    requires
        0 <= n <= row.len(),
    ensures
        row_stickers(row, n).count(x) == if x == Stiker::V { 0 } else { row_count(row, x, n) },
    decreases n,
{
    if n > 0 {
        lemma_row_stickers_count(row, x, n - 1);
    }
}

pub(crate) proof fn lemma_rows_stickers_count(g: Grid, x: Stiker, n: int)
    requires
        is_grid(g),
        0 <= n <= 9,
    ensures
        rows_stickers(g, n).count(x) == if x == Stiker::V { 0 } else { rows_count(g, x, n) },
    decreases n,
{
    if n > 0 {
        lemma_rows_stickers_count(g, x, n - 1);
        lemma_row_stickers_count(g[n - 1], x, 12);
    }
}

} // verus!
