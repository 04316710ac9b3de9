use vstd::prelude::*;

use crate::error::CubeError;
use crate::geometry::Face;
use crate::moves::{Move, Amount, Sense, apply_move};
use crate::net::{Cube, Grid, solved};

verus! {

/// Unicode's White_Space property, the separator of move tokens.
pub open spec fn is_space(c: char) -> bool {
    let u = c as u32;
    ||| 9 <= u <= 13
    ||| u == 32
    ||| u == 0x85
    ||| u == 0xa0
    ||| u == 0x1680
    ||| 0x2000 <= u <= 0x200a
    ||| u == 0x2028
    ||| u == 0x2029
    ||| u == 0x202f
    ||| u == 0x205f
    ||| u == 0x3000
}

/// The tokens of `s` from position `i` on, where `cur` holds the letters
/// of the token that is being read.
pub open spec fn tokens_from(s: Seq<char>, i: int, cur: Seq<char>) -> Seq<Seq<char>>
    decreases s.len() - i,
{
    if i >= s.len() {
        if cur.len() > 0 {
            seq![cur]
        } else {
            seq![]
        }
    } else if is_space(s[i]) {
        let rest = tokens_from(s, i + 1, seq![]);
        if cur.len() > 0 {
            seq![cur] + rest
        } else {
            rest
        }
    } else {
        tokens_from(s, i + 1, cur.push(s[i]))
    }
}

/// The maximal runs of non-space characters of `s`, in order.
pub open spec fn tokens(s: Seq<char>) -> Seq<Seq<char>> {
    tokens_from(s, 0, seq![])
}

/// The face or slice that a notation letter names.
pub open spec fn face_of(c: char) -> Option<Face> {
    if c == 'F' {
        Some(Face::Front)
    } else if c == 'R' {
        Some(Face::Right)
    } else if c == 'U' {
        Some(Face::Up)
    } else if c == 'L' {
        Some(Face::Left)
    } else if c == 'D' {
        Some(Face::Down)
    } else if c == 'B' {
        Some(Face::Back)
    } else if c == 'M' {
        Some(Face::Middle)
    } else {
        None
    }
}

/// The move a token names: a letter alone is a clockwise quarter turn, a
/// letter and `'` a counter-clockwise one, a letter and `2` (with or without
/// a trailing `'`) a double turn.
pub open spec fn token_move(t: Seq<char>) -> Option<Move> {
    if t.len() == 0 || face_of(t[0]) is None {
        None
    } else {
        let f = face_of(t[0]).unwrap();
        if t.len() == 1 {
            Some(Move { face: f, amount: Amount::Quarter, sense: Sense::Clockwise })
        } else if t.len() == 2 && t[1] == '\'' {
            Some(Move { face: f, amount: Amount::Quarter, sense: Sense::CounterClockwise })
        } else if t.len() == 2 && t[1] == '2' {
            Some(Move { face: f, amount: Amount::Double, sense: Sense::Clockwise })
        } else if t.len() == 3 && t[1] == '2' && t[2] == '\'' {
            Some(Move { face: f, amount: Amount::Double, sense: Sense::CounterClockwise })
        } else {
            None
        }
    }
}

/// The tokens applied in order to `g` until one names no move: the net
/// reached, and whether every token named a move.
pub open spec fn run(g: Grid, toks: Seq<Seq<char>>) -> (Grid, bool)
    decreases toks.len(),
{
    if toks.len() == 0 {
        (g, true)
    } else {
        let (h, ok) = run(g, toks.drop_last());
        if !ok {
            (h, false)
        } else {
            match token_move(toks.last()) {
                Some(m) => (apply_move(h, m), true),
                None => (h, false),
            }
        }
    }
}

/// Once a token fails, the tokens after it change nothing.
proof fn lemma_run_stops(g: Grid, a: Seq<Seq<char>>, b: Seq<Seq<char>>)
    requires
        !run(g, a).1,
    ensures
        run(g, a + b) == run(g, a),
    decreases b.len(),
{
    if b.len() > 0 {
        assert((a + b).drop_last() =~= a + b.drop_last());
        lemma_run_stops(g, a, b.drop_last());
    } else {
        assert(a + b =~= a);
    }
}

pub fn is_space_char(c: char) -> (r: bool)
    ensures
        r == is_space(c),
{
    let u = c as u32;
    (9 <= u && u <= 13) || u == 32 || u == 0x85 || u == 0xa0 || u == 0x1680 || (0x2000 <= u && u
        <= 0x200a) || u == 0x2028 || u == 0x2029 || u == 0x202f || u == 0x205f || u == 0x3000
}

fn face_of_char(c: char) -> (r: Option<Face>)
    ensures
        r == face_of(c),
{
    match c {
        'F' => Some(Face::Front),
        'R' => Some(Face::Right),
        'U' => Some(Face::Up),
        'L' => Some(Face::Left),
        'D' => Some(Face::Down),
        'B' => Some(Face::Back),
        'M' => Some(Face::Middle),
        _ => None,
    }
}

/// The move a token names, if any.
pub fn parse_token(t: &Vec<char>) -> (r: Option<Move>)
    ensures
        r == token_move(t@),
{
    if t.len() == 0 {
        return None;
    }
    let face = match face_of_char(t[0]) {
        Some(f) => f,
        None => return None,
    };
    if t.len() == 1 {
        Some(Move { face, amount: Amount::Quarter, sense: Sense::Clockwise })
    } else if t.len() == 2 && t[1] == '\'' {
        Some(Move { face, amount: Amount::Quarter, sense: Sense::CounterClockwise })
    } else if t.len() == 2 && t[1] == '2' {
        Some(Move { face, amount: Amount::Double, sense: Sense::Clockwise })
    } else if t.len() == 3 && t[1] == '2' && t[2] == '\'' {
        Some(Move { face, amount: Amount::Double, sense: Sense::CounterClockwise })
    } else {
        None
    }
}

impl Cube {
    /// Applies the moves of a whitespace-separated notation string, left to
    /// right. At the first token that names no move it stops with
    /// `UnknownMoveToken`; the moves before it stay applied.
    pub fn apply_sequence(&mut self, notation: &str) -> (r: Result<(), CubeError>)
        ensures
            r is Ok <==> run(old(self)@, tokens(notation@)).1,
            r is Err ==> r == Err::<(), CubeError>(CubeError::UnknownMoveToken),
            final(self)@ == run(old(self)@, tokens(notation@)).0,
    {
        let ghost s = notation@;
        let ghost g0 = self@;
        let n = notation.unicode_len();
        let mut cur: Vec<char> = Vec::new();
        let ghost mut done: Seq<Seq<char>> = seq![];
        let mut i: usize = 0;
        while i < n
            invariant
                n == s.len(),
                s == notation@,
                g0 == old(self)@,
                i <= n,
                tokens(s) == done + tokens_from(s, i as int, cur@),
                run(g0, done) == (self@, true),
            decreases n - i,
        {
            let c = notation.get_char(i);
            if is_space_char(c) {
                if cur.len() > 0 {
                    proof {
                        assert(done + tokens_from(s, i as int, cur@) =~= done.push(cur@) + tokens_from(s, i + 1, seq![]));
                        assert(done.push(cur@).drop_last() =~= done);
                    }
                    match parse_token(&cur) {
                        Some(m) => self.apply(m),
                        None => {
                            proof {
                                assert(done.push(cur@).last() == cur@);
                                assert(run(g0, done.push(cur@)) == (self@, false));
                                lemma_run_stops(g0, done.push(cur@), tokens_from(s, i + 1, seq![]));
                            }
                            return Err(CubeError::UnknownMoveToken);
                        },
                    }
                    proof {
                        done = done.push(cur@);
                    }
                    cur = Vec::new();
                    assert(cur@ =~= seq![]);
                } else {
                    assert(cur@ =~= seq![]);
                }
            } else {
                assert(tokens_from(s, i as int, cur@) == tokens_from(s, i + 1, cur@.push(c)));
                cur.push(c);
            }
            i += 1;
        }
        if cur.len() > 0 {
            proof {
                assert(done + tokens_from(s, i as int, cur@) =~= done.push(cur@));
                assert(done.push(cur@).drop_last() =~= done);
            }
            match parse_token(&cur) {
                Some(m) => self.apply(m),
                None => return Err(CubeError::UnknownMoveToken),
            }
        } else {
            assert(done + tokens_from(s, i as int, cur@) =~= done);
        }
        Ok(())
    }

    /// The solved puzzle after the moves of `notation`.
    pub fn from(notation: &str) -> (r: Result<Cube, CubeError>)
        ensures
            r is Ok <==> run(solved(), tokens(notation@)).1,
            r is Err ==> r == Err::<Cube, CubeError>(CubeError::UnknownMoveToken),
            r matches Ok(cube) ==> cube@ == run(solved(), tokens(notation@)).0,
    {
        let mut cube = Cube::default();
        match cube.apply_sequence(notation) {
            Ok(()) => Ok(cube),
            Err(e) => Err(e),
        }
    }
}

} // verus!
