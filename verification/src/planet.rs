//! The planet: its size and its rocks.

use vstd::prelude::*;

verus! {

/// A cell that the rover cannot enter.
#[derive(Debug, Copy, Clone, PartialEq, Eq, Structural)]
pub struct Rock {
    pub x: usize,
    pub y: usize,
}

impl Rock {
    /// The rock at `(x, y)`.
    pub fn from(x: usize, y: usize) -> (rock: Rock)
        ensures
            rock == (Rock { x, y }),
    {
        Rock { x, y }
    }
}

/// A rectangle of cells and the rocks on it: what a [`Planet`] stands for.
///
/// The cells are `(x, y)` with `x < width` and `y < height`. A rock may be
/// listed more than once, and may lie outside the rectangle, where no
/// rover can meet it.
pub ghost struct Grid {
    pub width: nat,
    pub height: nat,
    pub obstacles: Seq<Rock>,
}

impl Grid {
    /// Whether `(x, y)` is a cell of the grid.
    pub open spec fn contains_cell(self, x: nat, y: nat) -> bool {
        x < self.width && y < self.height
    }

    /// Whether some rock lies at `(x, y)`.
    pub open spec fn has_obstacle_at(self, x: nat, y: nat) -> bool {
        exists|i: int|
            0 <= i < self.obstacles.len() && (#[trigger] self.obstacles[i]).x == x
                && self.obstacles[i].y == y
    }

    /// Whether `other` has the cells of `self`, and rocks on the same of
    /// them. The two may list their rocks in another order, some of them
    /// more than once, and differ in the rocks that lie on no cell.
    pub open spec fn same_ground(self, other: Grid) -> bool {
        &&& self.width == other.width
        &&& self.height == other.height
        &&& forall|x: nat, y: nat|
            #![trigger self.has_obstacle_at(x, y)]
            self.contains_cell(x, y) ==> self.has_obstacle_at(x, y) == other.has_obstacle_at(x, y)
    }
}

/// The surface the rover drives on. It never changes once made.
#[derive(Debug)]
pub struct Planet {
    size: (usize, usize),
    rocks: Vec<Rock>,
}

impl View for Planet {
    type V = Grid;

    closed spec fn view(&self) -> Grid {
        Grid { width: self.size.0 as nat, height: self.size.1 as nat, obstacles: self.rocks@ }
    }
}

impl Clone for Planet {
    fn clone(&self) -> (copy: Planet)
        ensures
            copy@ == self@,
    {
        Planet { size: self.size, rocks: self.rocks.clone() }
    }
}

impl Planet {
    /// A planet of `size.0` by `size.1` cells with the given rocks. The
    /// rocks are taken as they come, wherever they lie.
    pub fn from(size: (usize, usize), rocks: Vec<Rock>) -> (planet: Planet)
        ensures
            planet@ == (Grid { width: size.0 as nat, height: size.1 as nat, obstacles: rocks@ }),
    {
        Planet { size, rocks }
    }

    /// The rocks, in the order in which the planet was given them.
    pub fn get_rocks(&self) -> (rocks: Vec<Rock>)
        ensures
            rocks@ == self@.obstacles,
    {
        self.rocks.clone()
    }

    /// Width and height, in cells.
    pub fn get_size(&self) -> (size: (usize, usize))
        ensures
            size.0 == self@.width,
            size.1 == self@.height,
    {
        self.size
    }

    /// Whether a rock lies at `(x, y)`.
    pub fn has_rock_at(&self, x: usize, y: usize) -> (found: bool)
        ensures
            found == self@.has_obstacle_at(x as nat, y as nat),
    {
        let mut i: usize = 0;
        while i < self.rocks.len()
            invariant
                i <= self.rocks.len(),
                forall|k: int| 0 <= k < i ==> !(self.rocks[k].x == x && self.rocks[k].y == y),
            decreases self.rocks.len() - i,
        {
            if self.rocks[i].x == x && self.rocks[i].y == y {
                assert(self@.obstacles[i as int] == self.rocks[i as int]);
                return true;
            }
            i += 1;
        }
        false
    }
}

} // verus!
