use vstd::prelude::*;

use crate::engine::{quarter, quarter_inv};
use crate::geometry::Face;
use crate::net::{Cube, Grid};

verus! {

/// How far a move turns.
#[derive(PartialEq, Eq, Structural, Clone, Copy, Debug)]
pub enum Amount {
    Quarter,
    Double,
}

/// Which way a move turns, looking at the face.
#[derive(PartialEq, Eq, Structural, Clone, Copy, Debug)]
pub enum Sense {
    Clockwise,
    CounterClockwise,
}

/// A move: a face (or the middle slice), an amount and a sense.
#[derive(PartialEq, Eq, Structural, Clone, Copy, Debug)]
pub struct Move {
    pub face: Face,
    pub amount: Amount,
    pub sense: Sense,
}

/// The net after `m`. A double turn is two clockwise quarter turns, whatever
/// its sense.
pub open spec fn apply_move(g: Grid, m: Move) -> Grid {
    match m.amount {
        Amount::Quarter => match m.sense {
            Sense::Clockwise => quarter(g, m.face),
            Sense::CounterClockwise => quarter_inv(g, m.face),
        },
        Amount::Double => quarter(quarter(g, m.face), m.face),
    }
}

/// The net after undoing `m`: each quarter turn of `m` replaced by its
/// reversed form.
pub open spec fn undo_move(g: Grid, m: Move) -> Grid {
    match m.amount {
        Amount::Quarter => match m.sense {
            Sense::Clockwise => quarter_inv(g, m.face),
            Sense::CounterClockwise => quarter(g, m.face),
        },
        Amount::Double => quarter_inv(quarter_inv(g, m.face), m.face),
    }
}

pub open spec fn flip(s: Sense) -> Sense {
    match s {
        Sense::Clockwise => Sense::CounterClockwise,
        Sense::CounterClockwise => Sense::Clockwise,
    }
}

/// The same move turning the other way.
pub open spec fn inverse_of(m: Move) -> Move {
    Move { sense: flip(m.sense), ..m }
}

/// The double turn of the same face.
pub open spec fn double_of(m: Move) -> Move {
    Move { amount: Amount::Double, ..m }
}

impl Move {
    pub fn new(face: Face, amount: Amount, sense: Sense) -> (m: Move)
        ensures
            m == (Move { face, amount, sense }),
    {
        Move { face, amount, sense }
    }

    /// The same move turning the other way.
    pub fn inverse(&self) -> (m: Move)
        ensures
            m == inverse_of(*self),
    {
        let sense = match self.sense {
            Sense::Clockwise => Sense::CounterClockwise,
            Sense::CounterClockwise => Sense::Clockwise,
        };
        Move { face: self.face, amount: self.amount, sense }
    }
}

impl Cube {
    /// Applies one move in place.
    pub fn apply(&mut self, m: Move)
        ensures
            final(self)@ == apply_move(old(self)@, m),
    {
        match m.amount {
            Amount::Quarter => match m.sense {
                Sense::Clockwise => self.quarter_turn(m.face),
                Sense::CounterClockwise => self.quarter_turn_inv(m.face),
            },
            Amount::Double => {
                self.quarter_turn(m.face);
                self.quarter_turn(m.face);
            },
        }
    }

    /// Undoes one move in place, with every cycle of it reversed.
    pub fn apply_inverse(&mut self, m: Move)
        ensures
            final(self)@ == undo_move(old(self)@, m),
    {
        match m.amount {
            Amount::Quarter => match m.sense {
                Sense::Clockwise => self.quarter_turn_inv(m.face),
                Sense::CounterClockwise => self.quarter_turn(m.face),
            },
            Amount::Double => {
                self.quarter_turn_inv(m.face);
                self.quarter_turn_inv(m.face);
            },
        }
    }

    pub fn rotate_front(&mut self)
        ensures
            final(self)@ == quarter(old(self)@, Face::Front),
    {
        self.quarter_turn(Face::Front);
    }

    pub fn rotate_front_inv(&mut self)
        ensures
            final(self)@ == quarter_inv(old(self)@, Face::Front),
    {
        self.quarter_turn_inv(Face::Front);
    }

    pub fn rotate_rigth(&mut self)
        ensures
            final(self)@ == quarter(old(self)@, Face::Right),
    {
        self.quarter_turn(Face::Right);
    }

    pub fn rotate_rigth_inv(&mut self)
        ensures
            final(self)@ == quarter_inv(old(self)@, Face::Right),
    {
        self.quarter_turn_inv(Face::Right);
    }

    pub fn rotate_up(&mut self)
        ensures
            final(self)@ == quarter(old(self)@, Face::Up),
    {
        self.quarter_turn(Face::Up);
    }

    pub fn rotate_up_inv(&mut self)
        ensures
            final(self)@ == quarter_inv(old(self)@, Face::Up),
    {
        self.quarter_turn_inv(Face::Up);
    }

    pub fn rotate_left(&mut self)
        ensures
            final(self)@ == quarter(old(self)@, Face::Left),
    {
        self.quarter_turn(Face::Left);
    }

    pub fn rotate_left_inv(&mut self)
        ensures
            final(self)@ == quarter_inv(old(self)@, Face::Left),
    {
        self.quarter_turn_inv(Face::Left);
    }

    pub fn rotate_down(&mut self)
        ensures
            final(self)@ == quarter(old(self)@, Face::Down),
    {
        self.quarter_turn(Face::Down);
    }

    pub fn rotate_down_inv(&mut self)
        ensures
            final(self)@ == quarter_inv(old(self)@, Face::Down),
    {
        self.quarter_turn_inv(Face::Down);
    }

    pub fn rotate_back(&mut self)
        ensures
            final(self)@ == quarter(old(self)@, Face::Back),
    {
        self.quarter_turn(Face::Back);
    }

    pub fn rotate_back_inv(&mut self)
        ensures
            final(self)@ == quarter_inv(old(self)@, Face::Back),
    {
        self.quarter_turn_inv(Face::Back);
    }

    pub fn rotate_middle(&mut self)
        ensures
            final(self)@ == quarter(old(self)@, Face::Middle),
    {
        self.quarter_turn(Face::Middle);
    }

    pub fn rotate_middle_inv(&mut self)
        ensures
            final(self)@ == quarter_inv(old(self)@, Face::Middle),
    {
        self.quarter_turn_inv(Face::Middle);
    }
}

} // verus!
