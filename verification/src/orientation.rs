//! Headings and quarter turns.

use vstd::prelude::*;

verus! {

/// A compass heading.
///
/// North is the direction of growing `y`, East the direction of growing `x`.
#[derive(Copy, Clone, Debug, PartialEq, Eq, Structural)]
pub enum Orientation {
    East,
    North,
    South,
    West,
}

impl Orientation {
    /// The heading a quarter turn counter-clockwise from `self`.
    pub open spec fn left(self) -> Orientation {
        match self {
            Orientation::North => Orientation::West,
            Orientation::West => Orientation::South,
            Orientation::South => Orientation::East,
            Orientation::East => Orientation::North,
        }
    }

    /// The heading a quarter turn clockwise from `self`.
    pub open spec fn right(self) -> Orientation {
        match self {
            Orientation::North => Orientation::East,
            Orientation::East => Orientation::South,
            Orientation::South => Orientation::West,
            Orientation::West => Orientation::North,
        }
    }

    /// Whether `self` points along the `x` axis.
    pub open spec fn is_horizontal(self) -> bool {
        self == Orientation::East || self == Orientation::West
    }

    /// Turns a quarter to the left: North, West, South, East, North.
    #[verifier::when_used_as_spec(left)]
    pub fn pivot_left(self) -> (turned: Orientation)
        ensures
            turned == self.left(),
    {
        match self {
            Orientation::North => Orientation::West,
            Orientation::East => Orientation::North,
            Orientation::South => Orientation::East,
            Orientation::West => Orientation::South,
        }
    }

    /// Turns a quarter to the right: North, East, South, West, North.
    #[verifier::when_used_as_spec(right)]
    pub fn pivot_right(self) -> (turned: Orientation)
        ensures
            turned == self.right(),
    {
        match self {
            Orientation::North => Orientation::East,
            Orientation::West => Orientation::North,
            Orientation::South => Orientation::West,
            Orientation::East => Orientation::South,
        }
    }
}

/// A left turn undoes a right turn, and a right turn undoes a left one.
pub proof fn lemma_pivots_are_inverse(o: Orientation)
    ensures
        o.pivot_right().pivot_left() == o,
        o.pivot_left().pivot_right() == o,
{
}

/// Four quarter turns in one direction come back to the heading they
/// started from, and no fewer do.
pub proof fn lemma_pivots_cycle(o: Orientation)
    ensures
        o.pivot_left().pivot_left().pivot_left().pivot_left() == o,
        o.pivot_right().pivot_right().pivot_right().pivot_right() == o,
        o.pivot_left() != o,
        o.pivot_left().pivot_left() != o,
        o.pivot_left().pivot_left().pivot_left() != o,
        o.pivot_right() != o,
        o.pivot_right().pivot_right() != o,
        o.pivot_right().pivot_right().pivot_right() != o,
{
}

} // verus!
