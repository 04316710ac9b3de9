//! A 3x3x3 twisty puzzle kept as an unfolded 9x12 net of facelets, with the
//! face turns that permute it and a parser for move notation.

pub mod error;
pub mod facelet;
pub mod net;
pub mod geometry;
pub mod engine;
pub mod moves;
pub mod notation;
pub mod pointwise;
pub mod counting;
pub mod laws;
