//! Rows of a sprite sheet.

use vstd::prelude::*;

verus! {

/// The direction an animated entity faces; each has its own sheet row.
#[derive(Clone, Copy, Debug, PartialEq, Eq, Structural)]
pub enum Directions {
    Down,
    Up,
    Left,
    Right,
}

impl Directions {
    /// The sheet row of the direction, counted from the top.
    pub open spec fn spec_row(self) -> u32 {
        match self {
            Directions::Down => 0,
            Directions::Up => 1,
            Directions::Left => 2,
            Directions::Right => 3,
        }
    }

    /// The sheet row of the direction, counted from the top.
    #[verifier::when_used_as_spec(spec_row)]
    pub fn row(self) -> (r: u32)
        ensures
            r == self.spec_row(),
    {
        match self {
            Directions::Down => 0,
            Directions::Up => 1,
            Directions::Left => 2,
            Directions::Right => 3,
        }
    }
}

} // verus!
