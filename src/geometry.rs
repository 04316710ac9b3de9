use vstd::prelude::*;

use crate::net::Pos;

verus! {

/// What turns: one of the six faces, or the middle slice between Left and
/// Right.
#[derive(PartialEq, Eq, Structural, Clone, Copy, Debug)]
pub enum Face {
    Front,
    Right,
    Up,
    Left,
    Down,
    Back,
    Middle,
}

/// The centre cell of the face's 3x3 block; the middle slice has none.
pub open spec fn center_of(f: Face) -> Option<Pos> {
    match f {
        Face::Front => Some((4, 4)),
        Face::Right => Some((4, 7)),
        Face::Up => Some((1, 4)),
        Face::Left => Some((4, 1)),
        Face::Down => Some((7, 4)),
        Face::Back => Some((4, 10)),
        Face::Middle => None,
    }
}

/// The first cell of each of the four strips that a turn of `f` moves.
pub open spec fn starts_of(f: Face) -> Seq<Pos> {
    match f {
        Face::Front => seq![(2, 5), (3, 2), (6, 3), (5, 6)],
        Face::Right => seq![(5, 9), (0, 5), (3, 5), (6, 5)],
        Face::Up => seq![(3, 0), (3, 3), (3, 6), (3, 9)],
        Face::Left => seq![(6, 3), (3, 3), (0, 3), (5, 11)],
        Face::Down => seq![(5, 9), (5, 6), (5, 3), (5, 0)],
        Face::Back => seq![(3, 8), (8, 5), (5, 0), (0, 3)],
        Face::Middle => seq![(6, 4), (3, 4), (0, 4), (5, 10)],
    }
}

/// The step from one cell of each strip to the next, in the order of
/// `starts_of`.
pub open spec fn steps_of(f: Face) -> Seq<Pos> {
    match f {
        Face::Front => seq![(0, -1), (1, 0), (0, 1), (-1, 0)],
        Face::Right => seq![(-1, 0), (1, 0), (1, 0), (1, 0)],
        Face::Up => seq![(0, 1), (0, 1), (0, 1), (0, 1)],
        Face::Left => seq![(1, 0), (1, 0), (1, 0), (-1, 0)],
        Face::Down => seq![(0, 1), (0, 1), (0, 1), (0, 1)],
        Face::Back => seq![(1, 0), (0, -1), (-1, 0), (0, 1)],
        Face::Middle => seq![(1, 0), (1, 0), (1, 0), (-1, 0)],
    }
}

/// Signed pairs read as mathematical cells.
pub open spec fn signed_cells(a: Seq<(isize, isize)>) -> Seq<Pos> {
    Seq::new(a.len(), |j: int| (a[j].0 as int, a[j].1 as int))
}

/// One entry of the move table.
pub struct Geometry {
    pub center: Option<(usize, usize)>,
    pub start: [(isize, isize); 4],
    pub step: [(isize, isize); 4],
}

pub open spec fn center_cell(c: Option<(usize, usize)>) -> Option<Pos> {
    match c {
        Some(p) => Some((p.0 as int, p.1 as int)),
        None => None,
    }
}

/// The move table: where each turn's centre block and strips lie.
pub fn geometry(f: Face) -> (g: Geometry)
    ensures
        center_cell(g.center) == center_of(f),
        signed_cells(g.start@) == starts_of(f),
        signed_cells(g.step@) == steps_of(f),
{
    let g = match f {
        Face::Front => Geometry {
            center: Some((4, 4)),
            start: [(2, 5), (3, 2), (6, 3), (5, 6)],
            step: [(0, -1), (1, 0), (0, 1), (-1, 0)],
        },
        Face::Right => Geometry {
            center: Some((4, 7)),
            start: [(5, 9), (0, 5), (3, 5), (6, 5)],
            step: [(-1, 0), (1, 0), (1, 0), (1, 0)],
        },
        Face::Up => Geometry {
            center: Some((1, 4)),
            start: [(3, 0), (3, 3), (3, 6), (3, 9)],
            step: [(0, 1); 4],
        },
        Face::Left => Geometry {
            center: Some((4, 1)),
            start: [(6, 3), (3, 3), (0, 3), (5, 11)],
            step: [(1, 0), (1, 0), (1, 0), (-1, 0)],
        },
        Face::Down => Geometry {
            center: Some((7, 4)),
            start: [(5, 9), (5, 6), (5, 3), (5, 0)],
            step: [(0, 1); 4],
        },
        Face::Back => Geometry {
            center: Some((4, 10)),
            start: [(3, 8), (8, 5), (5, 0), (0, 3)],
            step: [(1, 0), (0, -1), (-1, 0), (0, 1)],
        },
        Face::Middle => Geometry {
            center: None,
            start: [(6, 4), (3, 4), (0, 4), (5, 10)],
            step: [(1, 0), (1, 0), (1, 0), (-1, 0)],
        },
    };
    assert(signed_cells(g.start@) =~= starts_of(f));
    assert(signed_cells(g.step@) =~= steps_of(f));
    g
}

} // verus!
