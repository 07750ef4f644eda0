//! Positions and the arithmetic of moving on a torus.

use vstd::arithmetic::div_mod::{lemma_add_mod_noop_right, lemma_mod_self_0, lemma_small_mod};
use vstd::prelude::*;

use crate::orientation::Orientation;

verus! {

/// The index after `v` on an axis whose last index is `limit`, by
/// remainder: `(v + 1) mod (limit + 1)`.
pub open spec fn step_up_mod(v: nat, limit: nat) -> nat {
    ((v + 1) % (limit + 1)) as nat
}

/// The index after `v` on an axis whose last index is `limit`, by
/// comparison: `v + 1` below the limit, else 0.
pub open spec fn step_up_or_wrap(v: nat, limit: nat) -> nat {
    if v < limit {
        v + 1
    } else {
        0
    }
}

/// The index before `v` on an axis whose last index is `limit`:
/// `v - 1` above 0, else `limit`.
pub open spec fn step_down(v: nat, limit: nat) -> nat {
    if v > 0 {
        (v - 1) as nat
    } else {
        limit
    }
}

/// Up to the limit, stepping up by remainder and by comparison arrive at
/// the same index.
pub proof fn lemma_step_up_forms_agree(v: nat, limit: nat)
    requires
        v <= limit,
    ensures
        step_up_mod(v, limit) == step_up_or_wrap(v, limit),
{
    if v < limit {
        lemma_small_mod(v + 1, limit + 1);
    }
}

/// A cell and a heading: what a [`Position`] stands for.
pub ghost struct Pose {
    pub x: nat,
    pub y: nat,
    pub orientation: Orientation,
}

impl Pose {
    /// Whether the coordinate that a move changes is at most its limit.
    /// A pose facing East or West moves along `x`, one facing North or
    /// South along `y`.
    pub open spec fn on_track(self, limit_x: nat, limit_y: nat) -> bool {
        match self.orientation {
            Orientation::East | Orientation::West => self.x <= limit_x,
            Orientation::North | Orientation::South => self.y <= limit_y,
        }
    }

    /// The pose one cell ahead, on a grid whose last indices are
    /// `limit_x` and `limit_y`.
    pub open spec fn move_forward(self, limit_x: nat, limit_y: nat) -> Pose {
        match self.orientation {
            Orientation::East => Pose { x: step_up_mod(self.x, limit_x), ..self },
            Orientation::North => Pose { y: step_up_mod(self.y, limit_y), ..self },
            Orientation::South => Pose { y: step_down(self.y, limit_y), ..self },
            Orientation::West => Pose { x: step_down(self.x, limit_x), ..self },
        }
    }

    /// The pose one cell behind, on a grid whose last indices are
    /// `limit_x` and `limit_y`.
    pub open spec fn move_backward(self, limit_x: nat, limit_y: nat) -> Pose {
        match self.orientation {
            Orientation::East => Pose { x: step_down(self.x, limit_x), ..self },
            Orientation::North => Pose { y: step_down(self.y, limit_y), ..self },
            Orientation::South => Pose { y: step_up_or_wrap(self.y, limit_y), ..self },
            Orientation::West => Pose { x: step_up_or_wrap(self.x, limit_x), ..self },
        }
    }

    /// The same cell, heading a quarter turn to the left.
    pub open spec fn pivot_left(self) -> Pose {
        Pose { orientation: self.orientation.pivot_left(), ..self }
    }

    /// The same cell, heading a quarter turn to the right.
    pub open spec fn pivot_right(self) -> Pose {
        Pose { orientation: self.orientation.pivot_right(), ..self }
    }
}

/// A move forward and a move backward undo each other, in either order,
/// when the coordinate they change is within its limit. The heading and
/// the other coordinate may be anything.
pub proof fn lemma_moves_are_inverse(pose: Pose, limit_x: nat, limit_y: nat)
    requires
        pose.on_track(limit_x, limit_y),
    ensures
        pose.move_forward(limit_x, limit_y).move_backward(limit_x, limit_y) == pose,
        pose.move_backward(limit_x, limit_y).move_forward(limit_x, limit_y) == pose,
{
    let (v, limit) = if pose.orientation.is_horizontal() {
        (pose.x, limit_x)
    } else {
        (pose.y, limit_y)
    };
    lemma_step_up_forms_agree(v, limit);
    lemma_step_up_forms_agree(step_down(v, limit), limit);
}

/// Past the last index comes index 0, and before index 0 the last index.
/// Facing East or North a move forward steps up and a move backward
/// steps down; facing West or South it is the other way round.
pub proof fn lemma_moves_wrap_at_edges(pose: Pose, limit_x: nat, limit_y: nat)
    ensures
        ({
            let ahead = pose.move_forward(limit_x, limit_y);
            let behind = pose.move_backward(limit_x, limit_y);
            match pose.orientation {
                Orientation::East => {
                    &&& pose.x == limit_x ==> ahead.x == 0
                    &&& pose.x == 0 ==> behind.x == limit_x
                },
                Orientation::North => {
                    &&& pose.y == limit_y ==> ahead.y == 0
                    &&& pose.y == 0 ==> behind.y == limit_y
                },
                Orientation::South => {
                    &&& pose.y == 0 ==> ahead.y == limit_y
                    &&& pose.y == limit_y ==> behind.y == 0
                },
                Orientation::West => {
                    &&& pose.x == 0 ==> ahead.x == limit_x
                    &&& pose.x == limit_x ==> behind.x == 0
                },
            }
        }),
{
    lemma_mod_self_0((limit_x + 1) as int);
    lemma_mod_self_0((limit_y + 1) as int);
}

/// A move keeps the heading and the coordinate across it, and from a
/// cell within the limits it arrives at a cell within the limits.
pub proof fn lemma_moves_stay_within(pose: Pose, limit_x: nat, limit_y: nat)
    ensures
        ({
            let ahead = pose.move_forward(limit_x, limit_y);
            let behind = pose.move_backward(limit_x, limit_y);
            &&& ahead.orientation == pose.orientation
            &&& behind.orientation == pose.orientation
            &&& pose.orientation.is_horizontal() ==> ahead.y == pose.y && behind.y == pose.y
            &&& !pose.orientation.is_horizontal() ==> ahead.x == pose.x && behind.x == pose.x
            &&& pose.x <= limit_x && pose.y <= limit_y ==> {
                &&& ahead.x <= limit_x
                &&& ahead.y <= limit_y
                &&& behind.x <= limit_x
                &&& behind.y <= limit_y
            }
        }),
{
}

/// Where the rover stands and which way it faces.
#[derive(Debug, Copy, Clone)]
pub struct Position {
    x: usize,
    y: usize,
    pub orientation: Orientation,
}

impl View for Position {
    type V = Pose;

    closed spec fn view(&self) -> Pose {
        Pose { x: self.x as nat, y: self.y as nat, orientation: self.orientation }
    }
}

/// `(v + 1) mod (limit + 1)`, for every `v` and `limit`.
fn next_index_mod(v: usize, limit: usize) -> (next: usize)
    ensures
        next == step_up_mod(v as nat, limit as nat),
{
    if v <= limit {
        proof {
            lemma_step_up_forms_agree(v as nat, limit as nat);
        }
        next_index_or_wrap(v, limit)
    } else {
        let modulus: usize = limit + 1;
        let rest: usize = v % modulus;
        proof {
            lemma_add_mod_noop_right(1, v as int, modulus as int);
        }
        (rest + 1) % modulus
    }
}

/// `v + 1` below the limit, else 0.
fn next_index_or_wrap(v: usize, limit: usize) -> (next: usize)
    ensures
        next == step_up_or_wrap(v as nat, limit as nat),
{
    if v < limit {
        v + 1
    } else {
        0
    }
}

/// `v - 1` above 0, else `limit`.
fn previous_index(v: usize, limit: usize) -> (previous: usize)
    ensures
        previous == step_down(v as nat, limit as nat),
{
    if v > 0 {
        v - 1
    } else {
        limit
    }
}

impl Position {
    /// The position at `(x, y)` facing `orientation`. Nothing is checked:
    /// a position knows no grid.
    pub fn from(x: usize, y: usize, orientation: Orientation) -> (position: Position)
        ensures
            position@ == (Pose { x: x as nat, y: y as nat, orientation }),
    {
        Position { x, y, orientation }
    }

    /// The `x` coordinate.
    pub fn get_x(&self) -> (x: usize)
        ensures
            x == self@.x,
    {
        self.x
    }

    /// The `y` coordinate.
    pub fn get_y(&self) -> (y: usize)
        ensures
            y == self@.y,
    {
        self.y
    }

    /// The heading, for callers that cannot read the field.
    pub fn get_orientation(&self) -> (orientation: Orientation)
        ensures
            orientation == self@.orientation,
    {
        self.orientation
    }

    /// Moves one cell against the heading, which stays. `limit_x` and
    /// `limit_y` are the last indices of the grid, not its width and
    /// height. Stepping below 0 arrives at the limit, stepping up from
    /// the limit or beyond arrives at 0.
    pub fn move_backward(self, limit_x: usize, limit_y: usize) -> (moved: Position)
        ensures
            moved@ == self@.move_backward(limit_x as nat, limit_y as nat),
    {
        let (x, y) = match self.orientation {
            Orientation::East => (previous_index(self.x, limit_x), self.y),
            Orientation::North => (self.x, previous_index(self.y, limit_y)),
            Orientation::South => (self.x, next_index_or_wrap(self.y, limit_y)),
            Orientation::West => (next_index_or_wrap(self.x, limit_x), self.y),
        };
        Position { x, y, orientation: self.orientation }
    }

    /// Moves one cell along the heading, which stays. `limit_x` and
    /// `limit_y` are the last indices of the grid, not its width and
    /// height. Stepping up counts modulo `limit + 1`, stepping below 0
    /// arrives at the limit.
    pub fn move_forward(self, limit_x: usize, limit_y: usize) -> (moved: Position)
        ensures
            moved@ == self@.move_forward(limit_x as nat, limit_y as nat),
    {
        let (x, y) = match self.orientation {
            Orientation::East => (next_index_mod(self.x, limit_x), self.y),
            Orientation::North => (self.x, next_index_mod(self.y, limit_y)),
            Orientation::South => (self.x, previous_index(self.y, limit_y)),
            Orientation::West => (previous_index(self.x, limit_x), self.y),
        };
        Position { x, y, orientation: self.orientation }
    }

    /// Turns a quarter to the left on the spot.
    pub fn pivot_left(self) -> (turned: Position)
        ensures
            turned@ == self@.pivot_left(),
    {
        Position { x: self.x, y: self.y, orientation: self.orientation.pivot_left() }
    }

    /// Turns a quarter to the right on the spot.
    pub fn pivot_right(self) -> (turned: Position)
        ensures
            turned@ == self@.pivot_right(),
    {
        Position { x: self.x, y: self.y, orientation: self.orientation.pivot_right() }
    }
}

} // verus!
