use vstd::prelude::*;

verus! {

/// Why a notation string or a grid literal was refused.
#[derive(PartialEq, Eq, Structural, Clone, Copy, Debug)]
pub enum CubeError {
    /// A token of a move string names no move.
    UnknownMoveToken,
    /// A grid literal is not 9 rows of 12 cells.
    InvalidGridLiteral,
}

} // verus!
