//! What can go wrong: a rover that cannot be made, and a rover on a rock.

use vstd::prelude::*;

verus! {

/// Why no rover could be made.
#[derive(Copy, Clone, Debug, PartialEq, Eq, Structural)]
pub enum ConstructionError {
    /// The position is not a cell of the planet.
    OutOfBounds,
    /// The position is a cell of the planet, and a rock lies on it.
    InitialCollision,
}

impl ConstructionError {
    /// The wording of [`ConstructionError::message`].
    pub open spec fn text(self) -> Seq<char> {
        match self {
            ConstructionError::OutOfBounds => "out of bounds"@,
            ConstructionError::InitialCollision => "rover crashes directly on a rock"@,
        }
    }

    /// A line for a person to read.
    pub fn message(&self) -> (line: String)
        ensures
            line@ == self.text(),
    {
        match self {
            ConstructionError::OutOfBounds => "out of bounds".to_owned(),
            ConstructionError::InitialCollision => "rover crashes directly on a rock".to_owned(),
        }
    }
}

/// The rover stands on a rock.
#[derive(Copy, Clone, Debug, PartialEq, Eq, Structural)]
pub struct CollisionError;

impl CollisionError {
    /// The wording of [`CollisionError::message`].
    pub open spec fn text(self) -> Seq<char> {
        "collision with rock"@
    }

    /// A line for a person to read.
    pub fn message(&self) -> (line: String)
        ensures
            line@ == self.text(),
    {
        "collision with rock".to_owned()
    }
}

} // verus!
