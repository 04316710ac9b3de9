use vstd::prelude::*;

verus! {

/// One cell of the net: one of the six colours, or `V` for a padding cell
/// that holds no sticker.
#[derive(PartialEq, Eq, Structural, Clone, Copy, Debug)]
pub enum Stiker {
    /// Blue
    B,
    /// Red
    R,
    /// Yellow
    Y,
    /// Orange
    O,
    /// Green
    G,
    /// White
    W,
    /// Void: no sticker
    V,
}

/// The facelet that a colour letter stands for; any other character is void.
pub open spec fn stiker_of(c: char) -> Stiker {
    if c == 'b' {
        Stiker::B
    } else if c == 'r' {
        Stiker::R
    } else if c == 'y' {
        Stiker::Y
    } else if c == 'o' {
        Stiker::O
    } else if c == 'g' {
        Stiker::G
    } else if c == 'w' {
        Stiker::W
    } else {
        Stiker::V
    }
}

/// The letter of a facelet; a void cell is a space.
pub open spec fn char_of(s: Stiker) -> char {
    match s {
        Stiker::B => 'b',
        Stiker::R => 'r',
        Stiker::Y => 'y',
        Stiker::O => 'o',
        Stiker::G => 'g',
        Stiker::W => 'w',
        Stiker::V => ' ',
    }
}

impl Stiker {
    pub fn from_char(c: char) -> (s: Stiker)
        ensures
            s == stiker_of(c),
    {
        match c {
            'b' => Stiker::B,
            'r' => Stiker::R,
            'y' => Stiker::Y,
            'o' => Stiker::O,
            'g' => Stiker::G,
            'w' => Stiker::W,
            _ => Stiker::V,
        }
    }

    pub fn to_char(self) -> (c: char)
        ensures
            c == char_of(self),
    {
        match self {
            Stiker::B => 'b',
            Stiker::R => 'r',
            Stiker::Y => 'y',
            Stiker::O => 'o',
            Stiker::G => 'g',
            Stiker::W => 'w',
            Stiker::V => ' ',
        }
    }
}

impl From<char> for Stiker {
    fn from(c: char) -> Stiker {
        Stiker::from_char(c)
    }
}

impl vstd::std_specs::convert::FromSpecImpl<char> for Stiker {
    open spec fn obeys_from_spec() -> bool {
        true
    }

    open spec fn from_spec(c: char) -> Stiker {
        stiker_of(c)
    }
}

impl From<Stiker> for char {
    fn from(s: Stiker) -> char {
        s.to_char()
    }
}

impl vstd::std_specs::convert::FromSpecImpl<Stiker> for char {
    open spec fn obeys_from_spec() -> bool {
        true
    }

    open spec fn from_spec(s: Stiker) -> char {
        char_of(s)
    }
}

} // verus!
