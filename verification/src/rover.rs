//! The rover: a position on a planet, made only where it can stand, and
//! moved one command at a time.

use vstd::prelude::*;

use crate::command::Command;
use crate::error::{CollisionError, ConstructionError};
use crate::planet::{Grid, Planet};
use crate::position::{Pose, Position};

verus! {

/// A pose on a grid: what a [`Rover`] stands for.
pub ghost struct Vehicle {
    pub pose: Pose,
    pub grid: Grid,
}

impl Vehicle {
    /// Whether the vehicle stands on a cell of its grid.
    pub open spec fn in_bounds(self) -> bool {
        self.grid.contains_cell(self.pose.x, self.pose.y)
    }

    /// Whether the vehicle stands where a rock lies.
    pub open spec fn collides(self) -> bool {
        self.grid.has_obstacle_at(self.pose.x, self.pose.y)
    }

    /// The last index along `x`.
    pub open spec fn limit_x(self) -> nat {
        (self.grid.width - 1) as nat
    }

    /// The last index along `y`.
    pub open spec fn limit_y(self) -> nat {
        (self.grid.height - 1) as nat
    }

    /// The vehicle after one command, rocks or none: the pose moves or
    /// turns within the limits of the grid, and the grid stays.
    pub open spec fn apply(self, command: Command) -> Vehicle {
        let pose = match command {
            Command::MoveBackward => self.pose.move_backward(self.limit_x(), self.limit_y()),
            Command::MoveForward => self.pose.move_forward(self.limit_x(), self.limit_y()),
            Command::PivotLeft => self.pose.pivot_left(),
            Command::PivotRight => self.pose.pivot_right(),
        };
        Vehicle { pose, grid: self.grid }
    }
}

/// What a failed [`Rover::check_collision`] hands back: the rover as it
/// was given, and the reason.
pub type CheckCollisionError = (Rover, CollisionError);

/// A rover on its planet. It always stands on a cell of the planet.
#[derive(Debug)]
pub struct Rover {
    position: Position,
    planet: Planet,
}

impl View for Rover {
    type V = Vehicle;

    closed spec fn view(&self) -> Vehicle {
        Vehicle { pose: self.position@, grid: self.planet@ }
    }
}

impl Clone for Rover {
    fn clone(&self) -> (copy: Rover)
        ensures
            copy@ == self@,
    {
        proof {
            use_type_invariant(self);
        }
        Rover { position: self.position, planet: self.planet.clone() }
    }
}

impl Rover {
    /// What holds of every rover: it stands on a cell of its planet.
    #[verifier::type_invariant]
    pub open spec fn stands_on_planet(self) -> bool {
        self@.in_bounds()
    }

    /// Puts a rover at `position` on `planet`. The position must be a
    /// cell of the planet, and no rock may lie on it; which of the two
    /// failed is said in the error, bounds first.
    pub fn from(position: Position, planet: Planet) -> (made: Result<Rover, ConstructionError>)
        ensures
            match made {
                Ok(rover) => {
                    &&& rover@ == (Vehicle { pose: position@, grid: planet@ })
                    &&& rover@.in_bounds()
                    &&& !rover@.collides()
                },
                Err(ConstructionError::OutOfBounds) => !planet@.contains_cell(
                    position@.x,
                    position@.y,
                ),
                Err(ConstructionError::InitialCollision) => {
                    &&& planet@.contains_cell(position@.x, position@.y)
                    &&& planet@.has_obstacle_at(position@.x, position@.y)
                },
            },
    {
        let size = planet.get_size();
        if position.get_x() >= size.0 || position.get_y() >= size.1 {
            return Err(ConstructionError::OutOfBounds);
        }
        let rover = Rover { position, planet };
        match rover.check_collision() {
            Ok(rover) => Ok(rover),
            Err(_) => Err(ConstructionError::InitialCollision),
        }
    }

    /// A copy of the planet.
    pub fn get_planet(&self) -> (planet: Planet)
        ensures
            planet@ == self@.grid,
    {
        self.planet.clone()
    }

    /// Where the rover stands and which way it faces.
    pub fn get_position(&self) -> (position: Position)
        ensures
            position@ == self@.pose,
    {
        self.position
    }

    /// Hands the rover back as it is: in `Ok` where no rock lies under
    /// it, else in `Err`, beside the reason.
    pub fn check_collision(self) -> (checked: Result<Rover, CheckCollisionError>)
        ensures
            match checked {
                Ok(rover) => rover == self && !self@.collides(),
                Err((rover, _)) => rover == self && self@.collides(),
            },
    {
        if self.planet.has_rock_at(self.position.get_x(), self.position.get_y()) {
            Err((self, CollisionError))
        } else {
            Ok(self)
        }
    }

    /// Carries out one command on the planet's torus and looks for no
    /// rock: the rover that comes back may stand on one.
    pub fn apply(self, command: Command) -> (moved: Rover)
        ensures
            moved@ == self@.apply(command),
            moved@.in_bounds(),
    {
        proof {
            use_type_invariant(&self);
        }
        let size = self.planet.get_size();
        let limit_x = size.0 - 1;
        let limit_y = size.1 - 1;
        match command {
            Command::MoveBackward => Rover {
                position: self.position.move_backward(limit_x, limit_y),
                planet: self.planet,
            },
            Command::MoveForward => Rover {
                position: self.position.move_forward(limit_x, limit_y),
                planet: self.planet,
            },
            Command::PivotLeft => Rover {
                position: self.position.pivot_left(),
                planet: self.planet,
            },
            Command::PivotRight => Rover {
                position: self.position.pivot_right(),
                planet: self.planet,
            },
        }
    }

    /// Carries out one command unless it ends on a rock. In `Ok` comes
    /// the rover after the command; in `Err` the rover as it was before
    /// it, beside the reason.
    pub fn try_apply(self, command: Command) -> (tried: Result<Rover, CheckCollisionError>)
        ensures
            match tried {
                Ok(moved) => moved@ == self@.apply(command) && !moved@.collides(),
                Err((kept, _)) => kept@ == self@ && self@.apply(command).collides(),
            },
    {
        proof {
            use_type_invariant(&self);
        }
        let before = self.position;
        match self.apply(command).check_collision() {
            Ok(moved) => Ok(moved),
            Err((stuck, error)) => Err((Rover { position: before, planet: stuck.planet }, error)),
        }
    }
}

/// A command leaves the grid as it is, and a vehicle on a cell of the
/// grid on a cell of the grid: no command can drive it off.
pub proof fn lemma_apply_stays_in_bounds(vehicle: Vehicle, command: Command)
    requires
        vehicle.in_bounds(),
    ensures
        vehicle.apply(command).grid == vehicle.grid,
        vehicle.apply(command).in_bounds(),
{
}

/// On a cell of the grid, a move backward undoes a move forward and a
/// move forward a move backward, and a turn to one side undoes a turn to
/// the other.
pub proof fn lemma_opposite_commands_cancel(vehicle: Vehicle)
    requires
        vehicle.in_bounds(),
    ensures
        vehicle.apply(Command::MoveForward).apply(Command::MoveBackward) == vehicle,
        vehicle.apply(Command::MoveBackward).apply(Command::MoveForward) == vehicle,
        vehicle.apply(Command::PivotLeft).apply(Command::PivotRight) == vehicle,
        vehicle.apply(Command::PivotRight).apply(Command::PivotLeft) == vehicle,
{
    crate::position::lemma_moves_are_inverse(vehicle.pose, vehicle.limit_x(), vehicle.limit_y());
}

} // verus!
