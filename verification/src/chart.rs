//! A picture of the planet in characters.

use vstd::prelude::*;

use crate::planet::Planet;
use crate::position::Position;
use crate::rover::{Rover, Vehicle};

verus! {

impl Vehicle {
    /// The mark for the cell `(x, y)`: `R` where the vehicle stands, `X`
    /// where a rock lies and the vehicle does not stand, `.` elsewhere.
    pub open spec fn glyph(self, x: nat, y: nat) -> char {
        if self.pose.x == x && self.pose.y == y {
            'R'
        } else if self.grid.has_obstacle_at(x, y) {
            'X'
        } else {
            '.'
        }
    }

    /// The marks of the cells with the given `y`, by growing `x`.
    pub open spec fn chart_row(self, y: nat) -> Seq<char> {
        Seq::new(self.grid.width, |x: int| self.glyph(x as nat, y))
    }

    /// The rows of the grid, the one with the greatest `y` first.
    pub open spec fn chart(self) -> Seq<Seq<char>> {
        Seq::new(self.grid.height, |i: int| self.chart_row((self.grid.height - 1 - i) as nat))
    }
}

/// The mark for the cell `(x, y)` of `planet` with a rover at `position`.
pub fn glyph_at(planet: &Planet, position: &Position, x: usize, y: usize) -> (glyph: char)
    ensures
        glyph == (Vehicle { pose: position@, grid: planet@ }).glyph(x as nat, y as nat),
{
    if position.get_x() == x && position.get_y() == y {
        'R'
    } else if planet.has_rock_at(x, y) {
        'X'
    } else {
        '.'
    }
}

/// The planet as rows of marks, one row for each `y` and the greatest
/// `y` first, so that North is up and East to the right.
pub fn chart(rover: &Rover) -> (rows: Vec<Vec<char>>)
    ensures
        rows@.len() == rover@.chart().len(),
        forall|i: int| 0 <= i < rows@.len() ==> (#[trigger] rows@[i])@ == rover@.chart()[i],
{
    let planet = rover.get_planet();
    let position = rover.get_position();
    let (width, height) = planet.get_size();
    let ghost vehicle = rover@;
    let mut rows: Vec<Vec<char>> = Vec::new();
    let mut y: usize = height;
    while y > 0
        invariant
            vehicle == (Vehicle { pose: position@, grid: planet@ }),
            width == vehicle.grid.width,
            height == vehicle.grid.height,
            y <= height,
            rows@.len() == height - y,
            forall|i: int| 0 <= i < rows@.len() ==> (#[trigger] rows@[i])@ == vehicle.chart()[i],
        decreases y,
    {
        y -= 1;
        let mut row: Vec<char> = Vec::new();
        let mut x: usize = 0;
        while x < width
            invariant
                vehicle == (Vehicle { pose: position@, grid: planet@ }),
                width == vehicle.grid.width,
                x <= width,
                row@ == Seq::new(x as nat, |k: int| vehicle.glyph(k as nat, y as nat)),
            decreases width - x,
        {
            row.push(glyph_at(&planet, &position, x, y));
            x += 1;
        }
        rows.push(row);
    }
    rows
}

} // verus!
