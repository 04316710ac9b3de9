use vstd::prelude::*;
use vstd::multiset::Multiset;

use crate::error::CubeError;
use crate::facelet::{Stiker, stiker_of};

verus! {

/// Rows of the net.
pub const ROWS: usize = 9;

/// Columns of the net.
pub const COLS: usize = 12;

/// The mathematical net: a sequence of rows, each a sequence of facelets.
pub type Grid = Seq<Seq<Stiker>>;

/// A cell of the net, as (row, column).
pub type Pos = (int, int);

pub open spec fn in_net(p: Pos) -> bool {
    0 <= p.0 < 9 && 0 <= p.1 < 12
}

/// A grid of the net's shape: 9 rows of 12 cells.
pub open spec fn is_grid(g: Grid) -> bool {
    g.len() == 9 && forall|r: int| 0 <= r < 9 ==> #[trigger] g[r].len() == 12
}

/// The facelet at `p`.
pub open spec fn cell(g: Grid, p: Pos) -> Stiker {
    g[p.0][p.1]
}

/// The solved net: Up yellow, Left orange, Front blue, Right red, Back green,
/// Down white; every other cell void.
pub open spec fn solved_at(r: int, c: int) -> Stiker {
    if 0 <= r < 3 && 3 <= c < 6 {
        Stiker::Y
    } else if 3 <= r < 6 && 0 <= c < 3 {
        Stiker::O
    } else if 3 <= r < 6 && 3 <= c < 6 {
        Stiker::B
    } else if 3 <= r < 6 && 6 <= c < 9 {
        Stiker::R
    } else if 3 <= r < 6 && 9 <= c < 12 {
        Stiker::G
    } else if 6 <= r < 9 && 3 <= c < 6 {
        Stiker::W
    } else {
        Stiker::V
    }
}

pub open spec fn solved() -> Grid {
    Seq::new(9, |r: int| Seq::new(12, |c: int| solved_at(r, c)))
}

/// The net read from a grid of colour letters.
pub open spec fn grid_of_chars(chars: Seq<Seq<char>>) -> Grid {
    Seq::new(9, |r: int| Seq::new(12, |c: int| stiker_of(chars[r][c])))
}

/// How many of the first `n` cells of `row` hold `x`.
pub open spec fn row_count(row: Seq<Stiker>, x: Stiker, n: int) -> int
    decreases n,
{
    if n <= 0 {
        0
    } else {
        row_count(row, x, n - 1) + if row[n - 1] == x { 1int } else { 0 }
    }
}

/// How many cells of the first `n` rows of `g` hold `x`.
pub open spec fn rows_count(g: Grid, x: Stiker, n: int) -> int
    decreases n,
{
    if n <= 0 {
        0
    } else {
        rows_count(g, x, n - 1) + row_count(g[n - 1], x, 12)
    }
}

/// How many cells of the net hold `x`: the multiplicity of `x` in the
/// multiset of the net's facelets.
pub open spec fn count(g: Grid, x: Stiker) -> int {
    rows_count(g, x, 9)
}

/// The stickers among the first `n` cells of `row`: its non-void facelets.
pub open spec fn row_stickers(row: Seq<Stiker>, n: int) -> Multiset<Stiker>
    decreases n,
{
    if n <= 0 {
        Multiset::empty()
    } else if row[n - 1] == Stiker::V {
        row_stickers(row, n - 1)
    } else {
        row_stickers(row, n - 1).insert(row[n - 1])
    }
}

/// The stickers of the first `n` rows of `g`.
pub open spec fn rows_stickers(g: Grid, n: int) -> Multiset<Stiker>
    decreases n,
{
    if n <= 0 {
        Multiset::empty()
    } else {
        rows_stickers(g, n - 1).add(row_stickers(g[n - 1], 12))
    }
}

/// The multiset of the net's stickers: every non-void facelet, by colour.
pub open spec fn stickers(g: Grid) -> Multiset<Stiker> {
    rows_stickers(g, 9)
}

/// The state of the puzzle: the unfolded net, row by row.
#[derive(PartialEq, Eq, Clone, Copy, Debug)]
pub struct Cube {
    pub scan: [[Stiker; 12]; 9],
}

impl View for Cube {
    type V = Grid;

    open spec fn view(&self) -> Grid {
        Seq::new(9, |r: int| self.scan[r]@)
    }
}

pub proof fn lemma_view_is_grid(cube: Cube)
    ensures
        is_grid(cube@),
{
}

fn solved_facelet(r: usize, c: usize) -> (s: Stiker)
    ensures
        s == solved_at(r as int, c as int),
{
    if r < 3 && 3 <= c && c < 6 {
        Stiker::Y
    } else if 3 <= r && r < 6 && c < 3 {
        Stiker::O
    } else if 3 <= r && r < 6 && 3 <= c && c < 6 {
        Stiker::B
    } else if 3 <= r && r < 6 && 6 <= c && c < 9 {
        Stiker::R
    } else if 3 <= r && r < 6 && 9 <= c && c < 12 {
        Stiker::G
    } else if 6 <= r && r < 9 && 3 <= c && c < 6 {
        Stiker::W
    } else {
        Stiker::V
    }
}

impl Cube {
    /// The net whose cells are given by colour letters (`b r y o g w`); any
    /// other character gives a void cell.
    pub fn from_scan(inner_scan: [[char; 12]; 9]) -> (cube: Cube)
        ensures
            cube@ == grid_of_chars(Seq::new(9, |r: int| inner_scan[r]@)),
    {
        let mut scan = [[Stiker::V; 12]; 9];
        let mut r: usize = 0;
        while r < ROWS
            invariant
                r <= 9,
                forall|i: int, j: int| 0 <= i < r && 0 <= j < 12
                    ==> scan[i][j] == stiker_of(inner_scan[i][j]),
            decreases 9 - r,
        {
            let mut c: usize = 0;
            while c < COLS
                invariant
                    r < 9,
                    c <= 12,
                    forall|i: int, j: int| 0 <= i < r && 0 <= j < 12
                        ==> scan[i][j] == stiker_of(inner_scan[i][j]),
                    forall|j: int| 0 <= j < c ==> scan[r as int][j] == stiker_of(inner_scan[r as int][j]),
                decreases 12 - c,
            {
                scan[r][c] = Stiker::from_char(inner_scan[r][c]);
                c += 1;
            }
            r += 1;
        }
        let cube = Cube { scan };
        assert(cube@ =~~= grid_of_chars(Seq::new(9, |r: int| inner_scan[r]@)));
        cube
    }
}

impl Cube {
    /// The net given as rows of colour letters; refused with
    /// `InvalidGridLiteral` unless there are 9 rows of 12 letters.
    pub fn from_rows(rows: &Vec<Vec<char>>) -> (r: Result<Cube, CubeError>)
        ensures
            r is Ok <==> (rows@.len() == 9 && forall|i: int| 0 <= i < 9 ==> #[trigger] rows@[i]@.len() == 12),
            r is Err ==> r == Err::<Cube, CubeError>(CubeError::InvalidGridLiteral),
            r matches Ok(cube) ==> cube@ == grid_of_chars(Seq::new(9, |i: int| rows@[i]@)),
    {
        if rows.len() != ROWS {
            return Err(CubeError::InvalidGridLiteral);
        }
        let mut k: usize = 0;
        while k < ROWS
            invariant
                rows@.len() == 9,
                k <= 9,
                forall|i: int| 0 <= i < k ==> #[trigger] rows@[i]@.len() == 12,
            decreases 9 - k,
        {
            if rows[k].len() != COLS {
                return Err(CubeError::InvalidGridLiteral);
            }
            k += 1;
        }
        let mut scan = [[Stiker::V; 12]; 9];
        let mut r: usize = 0;
        while r < ROWS
            invariant
                rows@.len() == 9,
                forall|i: int| 0 <= i < 9 ==> #[trigger] rows@[i]@.len() == 12,
                r <= 9,
                forall|i: int, j: int| 0 <= i < r && 0 <= j < 12
                    ==> scan[i][j] == stiker_of(rows@[i]@[j]),
            decreases 9 - r,
        {
            let mut c: usize = 0;
            while c < COLS
                invariant
                    rows@.len() == 9,
                    forall|i: int| 0 <= i < 9 ==> #[trigger] rows@[i]@.len() == 12,
                    r < 9,
                    c <= 12,
                    forall|i: int, j: int| 0 <= i < r && 0 <= j < 12
                        ==> scan[i][j] == stiker_of(rows@[i]@[j]),
                    forall|j: int| 0 <= j < c ==> scan[r as int][j] == stiker_of(rows@[r as int]@[j]),
                decreases 12 - c,
            {
                scan[r][c] = Stiker::from_char(rows[r][c]);
                c += 1;
            }
            r += 1;
        }
        let cube = Cube { scan };
        assert(cube@ =~~= grid_of_chars(Seq::new(9, |i: int| rows@[i]@)));
        Ok(cube)
    }
}

impl Default for Cube {
    /// The solved puzzle.
    fn default() -> (cube: Cube)
        ensures
            cube@ == solved(),
    {
        let mut scan = [[Stiker::V; 12]; 9];
        let mut r: usize = 0;
        while r < ROWS
            invariant
                r <= 9,
                forall|i: int, j: int| 0 <= i < r && 0 <= j < 12 ==> scan[i][j] == solved_at(i, j),
            decreases 9 - r,
        {
            let mut c: usize = 0;
            while c < COLS
                invariant
                    r < 9,
                    c <= 12,
                    forall|i: int, j: int| 0 <= i < r && 0 <= j < 12
                        ==> scan[i][j] == solved_at(i, j),
                    forall|j: int| 0 <= j < c ==> scan[r as int][j] == solved_at(r as int, j),
                decreases 12 - c,
            {
                scan[r][c] = solved_facelet(r, c);
                c += 1;
            }
            r += 1;
        }
        let cube = Cube { scan };
        assert(cube@ =~~= solved());
        cube
    }
}

} // verus!
