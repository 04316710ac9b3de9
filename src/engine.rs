use vstd::prelude::*;

use crate::geometry::{Face, center_of, starts_of, steps_of, signed_cells, geometry};
use crate::net::{Cube, Grid, Pos, in_net, cell};

verus! {

/// Four distinct cells of the net, in cycle order.
pub open spec fn is_ring(q: Seq<Pos>) -> bool {
    &&& q.len() == 4
    &&& in_net(q[0]) && in_net(q[1]) && in_net(q[2]) && in_net(q[3])
    &&& q[0] != q[1] && q[0] != q[2] && q[0] != q[3]
    &&& q[1] != q[2] && q[1] != q[3]
    &&& q[2] != q[3]
}

/// The cell whose facelet lands on `p` in one step of the cycle `q`: each
/// cell of the ring takes the facelet of its successor, the last one that of
/// the first; cells off the ring keep theirs.
pub open spec fn ring_source(q: Seq<Pos>, p: Pos) -> Pos {
    if p == q[0] {
        q[1]
    } else if p == q[1] {
        q[2]
    } else if p == q[2] {
        q[3]
    } else if p == q[3] {
        q[0]
    } else {
        p
    }
}

/// One step of the four-cycle `q` on `g`.
pub open spec fn cycle(g: Grid, q: Seq<Pos>) -> Grid {
    Seq::new(9, |r: int| Seq::new(12, |c: int| cell(g, ring_source(q, (r, c)))))
}

/// The cells of an instruction, as mathematical cells.
pub open spec fn ring_of(instr: [(usize, usize); 4]) -> Seq<Pos> {
    Seq::new(4, |j: int| (instr[j].0 as int, instr[j].1 as int))
}

/// The corners of the 3x3 block around `(x, y)`, in cycle order.
pub open spec fn corners(x: int, y: int) -> Seq<Pos> {
    seq![(x - 1, y + 1), (x - 1, y - 1), (x + 1, y - 1), (x + 1, y + 1)]
}

/// The edge midpoints of the 3x3 block around `(x, y)`, in cycle order.
pub open spec fn edges(x: int, y: int) -> Seq<Pos> {
    seq![(x - 1, y), (x, y - 1), (x + 1, y), (x, y + 1)]
}

/// A 3x3 block centred at `(x, y)` lies inside the net.
pub open spec fn block_in_net(x: int, y: int) -> bool {
    1 <= x < 8 && 1 <= y < 11
}

/// A quarter turn of the block around `(x, y)`.
pub open spec fn center_turn(g: Grid, x: int, y: int) -> Grid {
    cycle(cycle(g, corners(x, y)), edges(x, y))
}

/// The inverse quarter turn of the block around `(x, y)`: both cycles run
/// backwards.
pub open spec fn center_turn_inv(g: Grid, x: int, y: int) -> Grid {
    cycle(cycle(g, corners(x, y).reverse()), edges(x, y).reverse())
}

/// The cycle of the cells at offset `i` along each of the four strips.
pub open spec fn strip_ring(start: Seq<Pos>, step: Seq<Pos>, i: int) -> Seq<Pos> {
    Seq::new(4, |j: int| (start[j].0 + step[j].0 * i, start[j].1 + step[j].1 * i))
}

/// Every offset along the strips gives a ring.
pub open spec fn strips_ok(start: Seq<Pos>, step: Seq<Pos>) -> bool {
    &&& start.len() == 4
    &&& step.len() == 4
    &&& is_ring(strip_ring(start, step, 0))
    &&& is_ring(strip_ring(start, step, 1))
    &&& is_ring(strip_ring(start, step, 2))
}

/// The three strip cycles, offset 0 first.
pub open spec fn strip_turn(g: Grid, start: Seq<Pos>, step: Seq<Pos>) -> Grid {
    cycle(cycle(cycle(g, strip_ring(start, step, 0)), strip_ring(start, step, 1)), strip_ring(start, step, 2))
}

/// A clockwise quarter turn of `f`: its block first, then its strips.
pub open spec fn quarter(g: Grid, f: Face) -> Grid {
    let h = match center_of(f) {
        Some(c) => center_turn(g, c.0, c.1),
        None => g,
    };
    strip_turn(h, starts_of(f), steps_of(f))
}

/// A counter-clockwise quarter turn of `f`, derived from the same table
/// entry with every cycle reversed.
pub open spec fn quarter_inv(g: Grid, f: Face) -> Grid {
    let h = match center_of(f) {
        Some(c) => center_turn_inv(g, c.0, c.1),
        None => g,
    };
    strip_turn(h, starts_of(f).reverse(), steps_of(f).reverse())
}

/// Every entry of the move table lies inside the net and moves distinct cells.
pub proof fn lemma_table_ok(f: Face)
    ensures
        strips_ok(starts_of(f), steps_of(f)),
        center_of(f) matches Some(c) ==> block_in_net(c.0, c.1),
{
}

/// A four-element sequence reversed; a reversed ring is a ring.
pub proof fn lemma_reverse4(q: Seq<Pos>)
    requires
        q.len() == 4,
    ensures
        q.reverse() == seq![q[3], q[2], q[1], q[0]],
        is_ring(q) ==> is_ring(q.reverse()),
{
    assert(q.reverse() =~= seq![q[3], q[2], q[1], q[0]]);
}

pub proof fn lemma_strips_reverse(start: Seq<Pos>, step: Seq<Pos>)
    requires
        strips_ok(start, step),
    ensures
        strips_ok(start.reverse(), step.reverse()),
        forall|i: int| #[trigger] strip_ring(start.reverse(), step.reverse(), i)
            == strip_ring(start, step, i).reverse(),
{
    assert forall|i: int| #[trigger] strip_ring(start.reverse(), step.reverse(), i)
        == strip_ring(start, step, i).reverse() by {
        assert(strip_ring(start.reverse(), step.reverse(), i) =~= strip_ring(start, step, i).reverse());
    }
    lemma_reverse4(strip_ring(start, step, 0));
    lemma_reverse4(strip_ring(start, step, 1));
    lemma_reverse4(strip_ring(start, step, 2));
}

fn reversed<T: Copy>(a: [T; 4]) -> (r: [T; 4])
    ensures
        r@ == a@.reverse(),
{
    let r = [a[3], a[2], a[1], a[0]];
    assert(r@ =~= a@.reverse());
    r
}

fn instr_by_center(center: (usize, usize)) -> (instr: [[(usize, usize); 4]; 2])
    requires
        block_in_net(center.0 as int, center.1 as int),
    ensures
        ring_of(instr[0]) == corners(center.0 as int, center.1 as int),
        ring_of(instr[1]) == edges(center.0 as int, center.1 as int),
{
    let x = center.0;
    let y = center.1;
    let instr = [
        [(x - 1, y + 1), (x - 1, y - 1), (x + 1, y - 1), (x + 1, y + 1)],
        [(x - 1, y), (x, y - 1), (x + 1, y), (x, y + 1)],
    ];
    assert(ring_of(instr[0]) =~= corners(x as int, y as int));
    assert(ring_of(instr[1]) =~= edges(x as int, y as int));
    instr
}

impl Cube {
    /// One step of a four-cycle: each cell of `instr` takes the facelet of
    /// the next one, and the last cell takes the first one's.
    fn rotate_by_instr(&mut self, instr: [(usize, usize); 4])
        requires
            is_ring(ring_of(instr)),
        ensures
            final(self)@ == cycle(old(self)@, ring_of(instr)),
    {
        let first = instr[0];
        let buffer = self.scan[first.0][first.1];
        let a = instr[1];
        self.scan[first.0][first.1] = self.scan[a.0][a.1];
        let b = instr[2];
        self.scan[a.0][a.1] = self.scan[b.0][b.1];
        let c = instr[3];
        self.scan[b.0][b.1] = self.scan[c.0][c.1];
        self.scan[c.0][c.1] = buffer;
        assert(self@ =~~= cycle(old(self)@, ring_of(instr)));
    }

    /// A quarter turn of the 3x3 block around `center`; its centre cell stays.
    fn rotate_center(&mut self, center: (usize, usize))
        requires
            block_in_net(center.0 as int, center.1 as int),
        ensures
            final(self)@ == center_turn(old(self)@, center.0 as int, center.1 as int),
    {
        let instr = instr_by_center(center);
        self.rotate_by_instr(instr[0]);
        self.rotate_by_instr(instr[1]);
    }

    /// The inverse of `rotate_center`: the same cycles, each reversed.
    fn rotate_center_inv(&mut self, center: (usize, usize))
        requires
            block_in_net(center.0 as int, center.1 as int),
        ensures
            final(self)@ == center_turn_inv(old(self)@, center.0 as int, center.1 as int),
    {
        let instr = instr_by_center(center);
        let corner_ring = reversed(instr[0]);
        assert(ring_of(corner_ring) =~= ring_of(instr[0]).reverse());
        proof {
            lemma_reverse4(ring_of(instr[0]));
        }
        self.rotate_by_instr(corner_ring);
        let edge_ring = reversed(instr[1]);
        assert(ring_of(edge_ring) =~= ring_of(instr[1]).reverse());
        proof {
            lemma_reverse4(ring_of(instr[1]));
        }
        self.rotate_by_instr(edge_ring);
    }

    /// One step along the four strips: for each offset 0, 1, 2 the cells at
    /// that offset form one four-cycle.
    fn rotate_by_start_and_direction(&mut self, start: [(isize, isize); 4], start_direction: [(isize, isize); 4])
        requires
            strips_ok(signed_cells(start@), signed_cells(start_direction@)),
        ensures
            final(self)@ == strip_turn(old(self)@, signed_cells(start@), signed_cells(start_direction@)),
    {
        let ghost s = signed_cells(start@);
        let ghost d = signed_cells(start_direction@);
        let ghost g0 = self@;
        let mut i: usize = 0;
        while i < 3
            invariant
                i <= 3,
                strips_ok(s, d),
                s == signed_cells(start@),
                d == signed_cells(start_direction@),
                i == 0 ==> self@ == g0,
                i == 1 ==> self@ == cycle(g0, strip_ring(s, d, 0)),
                i == 2 ==> self@ == cycle(cycle(g0, strip_ring(s, d, 0)), strip_ring(s, d, 1)),
                i == 3 ==> self@ == strip_turn(g0, s, d),
            decreases 3 - i,
        {
            let mut instr = [(0usize, 0usize); 4];
            let mut j: usize = 0;
            while j < 4
                invariant
                    i < 3,
                    j <= 4,
                    strips_ok(s, d),
                    s == signed_cells(start@),
                    d == signed_cells(start_direction@),
                    forall|k: int| 0 <= k < j ==> (instr[k].0 as int, instr[k].1 as int)
                        == #[trigger] strip_ring(s, d, i as int)[k],
                decreases 4 - j,
            {
                let rotate = start[j];
                let direction = start_direction[j];
                assert(in_net(strip_ring(s, d, 0)[j as int]));
                assert(in_net(strip_ring(s, d, 1)[j as int]));
                assert(in_net(strip_ring(s, d, i as int)[j as int]));
                let di = i as isize;
                assert(-9 < direction.0 < 9 && -12 < direction.1 < 12);
                assert(-18 < direction.0 * di < 18 && -24 < direction.1 * di < 24) by (nonlinear_arith)
                    requires
                        -9 < direction.0 < 9,
                        -12 < direction.1 < 12,
                        0 <= di < 3,
                ;
                instr[j] = ((rotate.0 + direction.0 * di) as usize, (rotate.1 + direction.1 * di) as usize);
                j += 1;
            }
            assert(ring_of(instr) =~= strip_ring(s, d, i as int));
            self.rotate_by_instr(instr);
            i += 1;
        }
    }

    /// The inverse of `rotate_by_start_and_direction`: both arrays reversed.
    fn rotate_by_start_and_direction_inv(&mut self, start: [(isize, isize); 4], start_direction: [(isize, isize); 4])
        requires
            strips_ok(signed_cells(start@), signed_cells(start_direction@)),
        ensures
            final(self)@ == strip_turn(
                old(self)@,
                signed_cells(start@).reverse(),
                signed_cells(start_direction@).reverse(),
            ),
    {
        let start_inv = reversed(start);
        let direction_inv = reversed(start_direction);
        assert(signed_cells(start_inv@) =~= signed_cells(start@).reverse());
        assert(signed_cells(direction_inv@) =~= signed_cells(start_direction@).reverse());
        proof {
            lemma_strips_reverse(signed_cells(start@), signed_cells(start_direction@));
        }
        self.rotate_by_start_and_direction(start_inv, direction_inv);
    }

    /// A clockwise quarter turn of `f`, read from the move table.
    pub(crate) fn quarter_turn(&mut self, f: Face)
        ensures
            final(self)@ == quarter(old(self)@, f),
    {
        proof {
            lemma_table_ok(f);
        }
        let g = geometry(f);
        if let Some(center) = g.center {
            self.rotate_center(center);
        }
        self.rotate_by_start_and_direction(g.start, g.step);
    }

    /// A counter-clockwise quarter turn of `f`, read from the move table.
    pub(crate) fn quarter_turn_inv(&mut self, f: Face)
        ensures
            final(self)@ == quarter_inv(old(self)@, f),
    {
        proof {
            lemma_table_ok(f);
        }
        let g = geometry(f);
        if let Some(center) = g.center {
            self.rotate_center_inv(center);
        }
        self.rotate_by_start_and_direction_inv(g.start, g.step);
    }
}

} // verus!
