//! The four directions a component can face.

use vstd::prelude::*;

verus! {

/// A discrete rotation in steps of a quarter turn, clockwise from `Up`.
#[derive(Clone, Copy, Debug, PartialEq, Eq, Structural, Hash)]
pub enum Orientation {
    Up,
    Right,
    Down,
    Left,
}

impl Orientation {
    /// The number of clockwise quarter turns from `Up`.
    pub open spec fn spec_quarter_turns(self) -> nat {
        match self {
            Orientation::Up => 0,
            Orientation::Right => 1,
            Orientation::Down => 2,
            Orientation::Left => 3,
        }
    }

    /// The successor in the cycle `Up -> Right -> Down -> Left -> Up`.
    pub open spec fn spec_next(self) -> Orientation {
        match self {
            Orientation::Up => Orientation::Right,
            Orientation::Right => Orientation::Down,
            Orientation::Down => Orientation::Left,
            Orientation::Left => Orientation::Up,
        }
    }

    /// Advances one quarter turn clockwise, wrapping from `Left` to `Up`.
    pub fn next(self) -> (r: Orientation)
        ensures
            r == self.spec_next(),
    {
        match self {
            Orientation::Up => Orientation::Right,
            Orientation::Right => Orientation::Down,
            Orientation::Down => Orientation::Left,
            Orientation::Left => Orientation::Up,
        }
    }

    /// The number of clockwise quarter turns from `Up`, in `0..4`.
    pub fn quarter_turns(self) -> (n: u8)
        ensures
            n == self.spec_quarter_turns(),
            n < 4,
    {
        match self {
            Orientation::Up => 0,
            Orientation::Right => 1,
            Orientation::Down => 2,
            Orientation::Left => 3,
        }
    }

    /// The rotation angle in whole degrees: 0, 90, 180 or 270.
    pub fn to_degrees(self) -> (d: u16)
        ensures
            d == 90 * self.spec_quarter_turns(),
    {
        match self {
            Orientation::Up => 0,
            Orientation::Right => 90,
            Orientation::Down => 180,
            Orientation::Left => 270,
        }
    }
}

/// Four successive quarter turns bring every orientation back to itself.
pub proof fn lemma_next_four_times_is_identity(o: Orientation)
    ensures
        o.spec_next().spec_next().spec_next().spec_next() == o,
{
}

/// Each step adds one quarter turn, and the fourth wraps around.
pub proof fn lemma_next_adds_a_quarter_turn(o: Orientation)
    ensures
        o.spec_next().spec_quarter_turns() == (o.spec_quarter_turns() + 1) % 4,
{
}

/// One quarter turn never leaves an orientation where it was, and the cycle
/// visits all four orientations before it closes.
pub proof fn lemma_next_has_period_four(o: Orientation)
    ensures
        o.spec_next() != o,
        o.spec_next().spec_next() != o,
        o.spec_next().spec_next().spec_next() != o,
{
}

} // verus!
