//! Each quarter turn as a map from a cell to the cell its facelet comes
//! from, and the facts about those maps that the laws rest on.

use vstd::prelude::*;

use crate::engine::{
    ring_source, strip_ring, corners, edges, cycle, quarter, quarter_inv, lemma_table_ok,
    lemma_strips_reverse, lemma_reverse4, is_ring, strips_ok, strip_turn, block_in_net, center_turn,
    center_turn_inv,
};
use crate::geometry::{Face, center_of, starts_of, steps_of};
use crate::net::{Grid, Pos, in_net, is_grid, cell};

verus! {

/// The cell whose facelet lands on `p` in a clockwise quarter turn of `f`.
pub open spec fn quarter_source(f: Face, p: Pos) -> Pos {
    let s = starts_of(f);
    let d = steps_of(f);
    let p1 = ring_source(strip_ring(s, d, 0), ring_source(strip_ring(s, d, 1), ring_source(strip_ring(s, d, 2), p)));
    match center_of(f) {
        Some(c) => ring_source(corners(c.0, c.1), ring_source(edges(c.0, c.1), p1)),
        None => p1,
    }
}

/// The cell whose facelet lands on `p` in a counter-clockwise quarter turn of `f`.
pub open spec fn quarter_inv_source(f: Face, p: Pos) -> Pos {
    let s = starts_of(f).reverse();
    let d = steps_of(f).reverse();
    let p1 = ring_source(strip_ring(s, d, 0), ring_source(strip_ring(s, d, 1), ring_source(strip_ring(s, d, 2), p)));
    match center_of(f) {
        Some(c) => ring_source(corners(c.0, c.1).reverse(), ring_source(edges(c.0, c.1).reverse(), p1)),
        None => p1,
    }
}

/// The position-level facts behind the laws for a turn of `f`.
pub open spec fn sources_ok(f: Face, p: Pos) -> bool {
    &&& in_net(quarter_source(f, p))
    &&& in_net(quarter_inv_source(f, p))
    &&& quarter_source(f, quarter_inv_source(f, p)) == p
    &&& quarter_inv_source(f, quarter_source(f, p)) == p
    &&& quarter_source(f, quarter_source(f, quarter_source(f, quarter_source(f, p)))) == p
    &&& quarter_source(f, quarter_source(f, p)) == quarter_inv_source(f, quarter_inv_source(f, p))
}

pub(crate) proof fn lemma_reverse_table(f: Face)
    ensures
        starts_of(f).reverse() == seq![starts_of(f)[3], starts_of(f)[2], starts_of(f)[1], starts_of(f)[0]],
        steps_of(f).reverse() == seq![steps_of(f)[3], steps_of(f)[2], steps_of(f)[1], steps_of(f)[0]],
        center_of(f) matches Some(c) ==> {
            &&& corners(c.0, c.1).reverse() == seq![corners(c.0, c.1)[3], corners(c.0, c.1)[2], corners(c.0, c.1)[1], corners(c.0, c.1)[0]]
            &&& edges(c.0, c.1).reverse() == seq![edges(c.0, c.1)[3], edges(c.0, c.1)[2], edges(c.0, c.1)[1], edges(c.0, c.1)[0]]
        },
{
    lemma_reverse4(starts_of(f));
    lemma_reverse4(steps_of(f));
    if let Some(c) = center_of(f) {
        lemma_reverse4(corners(c.0, c.1));
        lemma_reverse4(edges(c.0, c.1));
    }
}

pub(crate) proof fn lemma_sources_front(p: Pos)
    requires
        in_net(p),
    ensures
        sources_ok(Face::Front, p),
{
    lemma_reverse_table(Face::Front);
}

pub(crate) proof fn lemma_sources_right(p: Pos)
    requires
        in_net(p),
    ensures
        sources_ok(Face::Right, p),
{
    lemma_reverse_table(Face::Right);
}

pub(crate) proof fn lemma_sources_up(p: Pos)
    requires
        in_net(p),
    ensures
        sources_ok(Face::Up, p),
{
    lemma_reverse_table(Face::Up);
}

pub(crate) proof fn lemma_sources_left(p: Pos)
    requires
        in_net(p),
    ensures
        sources_ok(Face::Left, p),
{
    lemma_reverse_table(Face::Left);
}

pub(crate) proof fn lemma_sources_down(p: Pos)
    requires
        in_net(p),
    ensures
        sources_ok(Face::Down, p),
{
    lemma_reverse_table(Face::Down);
}

pub(crate) proof fn lemma_sources_back(p: Pos)
    requires
        in_net(p),
    ensures
        sources_ok(Face::Back, p),
{
    lemma_reverse_table(Face::Back);
}

pub(crate) proof fn lemma_sources_middle(p: Pos)
    requires
        in_net(p),
    ensures
        sources_ok(Face::Middle, p),
{
    lemma_reverse_table(Face::Middle);
}

/// The position-level facts behind the laws, checked face by face.
pub(crate) proof fn lemma_sources(f: Face, p: Pos)
    requires
        in_net(p),
    ensures
        sources_ok(f, p),
{
    match f {
        Face::Front => lemma_sources_front(p),
        Face::Right => lemma_sources_right(p),
        Face::Up => lemma_sources_up(p),
        Face::Left => lemma_sources_left(p),
        Face::Down => lemma_sources_down(p),
        Face::Back => lemma_sources_back(p),
        Face::Middle => lemma_sources_middle(p),
    }
}


pub(crate) proof fn lemma_cycle_at(g: Grid, q: Seq<Pos>, p: Pos)
    requires
        is_ring(q),
        in_net(p),
    ensures
        is_grid(cycle(g, q)),
        in_net(ring_source(q, p)),
        cell(cycle(g, q), p) == cell(g, ring_source(q, p)),
{
}

pub(crate) proof fn lemma_strip_at(g: Grid, s: Seq<Pos>, d: Seq<Pos>, p: Pos)
    requires
        strips_ok(s, d),
        in_net(p),
    ensures
        is_grid(strip_turn(g, s, d)),
        cell(strip_turn(g, s, d), p) == cell(
            g,
            ring_source(strip_ring(s, d, 0), ring_source(strip_ring(s, d, 1), ring_source(strip_ring(s, d, 2), p))),
        ),
{
    let r0 = strip_ring(s, d, 0);
    let r1 = strip_ring(s, d, 1);
    let r2 = strip_ring(s, d, 2);
    lemma_cycle_at(cycle(cycle(g, r0), r1), r2, p);
    let p2 = ring_source(r2, p);
    lemma_cycle_at(cycle(g, r0), r1, p2);
    lemma_cycle_at(g, r0, ring_source(r1, p2));
}

pub(crate) proof fn lemma_block_at(g: Grid, x: int, y: int, p: Pos)
    requires
        block_in_net(x, y),
        in_net(p),
    ensures
        in_net(ring_source(corners(x, y), ring_source(edges(x, y), p))),
        in_net(ring_source(corners(x, y).reverse(), ring_source(edges(x, y).reverse(), p))),
        cell(center_turn(g, x, y), p) == cell(g, ring_source(corners(x, y), ring_source(edges(x, y), p))),
        cell(center_turn_inv(g, x, y), p) == cell(
            g,
            ring_source(corners(x, y).reverse(), ring_source(edges(x, y).reverse(), p)),
        ),
{
    let c = corners(x, y);
    let e = edges(x, y);
    lemma_reverse4(c);
    lemma_reverse4(e);
    lemma_cycle_at(cycle(g, c), e, p);
    lemma_cycle_at(g, c, ring_source(e, p));
    lemma_cycle_at(cycle(g, c.reverse()), e.reverse(), p);
    lemma_cycle_at(g, c.reverse(), ring_source(e.reverse(), p));
}

/// A quarter turn, either way, moves each facelet from its source cell.
pub proof fn lemma_quarter_at(g: Grid, f: Face, p: Pos)
    requires
        in_net(p),
    ensures
        is_grid(quarter(g, f)),
        is_grid(quarter_inv(g, f)),
        cell(quarter(g, f), p) == cell(g, quarter_source(f, p)),
        cell(quarter_inv(g, f), p) == cell(g, quarter_inv_source(f, p)),
{
    let s = starts_of(f);
    let d = steps_of(f);
    lemma_table_ok(f);
    lemma_strips_reverse(s, d);
    let fwd = match center_of(f) {
        Some(c) => center_turn(g, c.0, c.1),
        None => g,
    };
    let bwd = match center_of(f) {
        Some(c) => center_turn_inv(g, c.0, c.1),
        None => g,
    };
    lemma_strip_at(fwd, s, d, p);
    lemma_strip_at(bwd, s.reverse(), d.reverse(), p);
    let p1 = ring_source(strip_ring(s, d, 0), ring_source(strip_ring(s, d, 1), ring_source(strip_ring(s, d, 2), p)));
    let s_r = s.reverse();
    let d_r = d.reverse();
    let p2 = ring_source(strip_ring(s_r, d_r, 0), ring_source(strip_ring(s_r, d_r, 1), ring_source(strip_ring(s_r, d_r, 2), p)));
    lemma_cycle_at(g, strip_ring(s, d, 2), p);
    lemma_cycle_at(g, strip_ring(s, d, 1), ring_source(strip_ring(s, d, 2), p));
    lemma_cycle_at(g, strip_ring(s, d, 0), ring_source(strip_ring(s, d, 1), ring_source(strip_ring(s, d, 2), p)));
    lemma_cycle_at(g, strip_ring(s_r, d_r, 2), p);
    lemma_cycle_at(g, strip_ring(s_r, d_r, 1), ring_source(strip_ring(s_r, d_r, 2), p));
    lemma_cycle_at(g, strip_ring(s_r, d_r, 0), ring_source(strip_ring(s_r, d_r, 1), ring_source(strip_ring(s_r, d_r, 2), p)));
    if let Some(c) = center_of(f) {
        lemma_block_at(g, c.0, c.1, p1);
        lemma_block_at(g, c.0, c.1, p2);
    }
}

/// Two nets of the right shape that agree on every cell are equal.
pub(crate) proof fn lemma_same_grid(a: Grid, b: Grid)
    requires
        is_grid(a),
        is_grid(b),
        forall|r: int, c: int| 0 <= r < 9 && 0 <= c < 12 ==> #[trigger] a[r][c] == b[r][c],
    ensures
        a == b,
{
    assert forall|r: int| 0 <= r < 9 implies #[trigger] a[r] == b[r] by {
        assert(a[r] =~= b[r]);
    }
    assert(a =~= b);
}

} // verus!
