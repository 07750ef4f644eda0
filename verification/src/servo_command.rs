//! Runs of commands: what a string of command characters does to a
//! rover, and the laws of such runs.

use vstd::prelude::*;
use vstd::std_specs::iter::IteratorSpec;

use crate::command::Command;
use crate::planet::Grid;
use crate::rover::{CheckCollisionError, Rover, Vehicle};

verus! {

impl Vehicle {
    /// Whether the character `c` is a command that would end on a rock.
    pub open spec fn blocked_by(self, c: char) -> bool {
        match Command::parse(c) {
            Some(command) => self.apply(command).collides(),
            None => false,
        }
    }

    /// The vehicle after the character `c`: after the command that `c`
    /// stands for, or as it is where `c` stands for none.
    pub open spec fn step(self, c: char) -> Vehicle {
        match Command::parse(c) {
            Some(command) => self.apply(command),
            None => self,
        }
    }

    /// Whether a run of `commands` meets a rock: some command in it, with
    /// all before it carried out, would end on one.
    pub open spec fn halts(self, commands: Seq<char>) -> bool
        decreases commands.len(),
    {
        commands.len() > 0 && {
            ||| self.blocked_by(commands[0])
            ||| self.step(commands[0]).halts(commands.drop_first())
        }
    }

    /// The vehicle after a run of `commands`, read from the left: each is
    /// carried out in turn, and the first that would end on a rock ends
    /// the run, with the vehicle as it was before that command.
    pub open spec fn run(self, commands: Seq<char>) -> Vehicle
        decreases commands.len(),
    {
        if commands.len() == 0 || self.blocked_by(commands[0]) {
            self
        } else {
            self.step(commands[0]).run(commands.drop_first())
        }
    }
}

/// A run of two strings joined is the run of the first and then, from
/// where that arrived, the run of the second; unless the first meets a
/// rock, which ends the run whatever follows.
pub proof fn lemma_run_of_joined(vehicle: Vehicle, first: Seq<char>, second: Seq<char>)
    ensures
        vehicle.halts(first + second) == (vehicle.halts(first) || vehicle.run(first).halts(second)),
        vehicle.run(first + second) == if vehicle.halts(first) {
            vehicle.run(first)
        } else {
            vehicle.run(first).run(second)
        },
    decreases first.len(),
{
    if first.len() > 0 {
        assert((first + second).drop_first() == first.drop_first() + second);
        if !vehicle.blocked_by(first[0]) {
            lemma_run_of_joined(vehicle.step(first[0]), first.drop_first(), second);
        }
    }
}

/// With a rock on the cell ahead, a run that begins with `f` ends where
/// it began, whatever follows the `f`.
pub proof fn lemma_rock_ahead_ends_run(vehicle: Vehicle, rest: Seq<char>)
    requires
        vehicle.apply(Command::MoveForward).collides(),
    ensures
        vehicle.halts(seq!['f'] + rest),
        vehicle.run(seq!['f'] + rest) == vehicle,
{
}

/// A character that stands for no command changes nothing, wherever in
/// the string it stands: the run is that of the string without it.
pub proof fn lemma_unknown_character_is_skipped(
    vehicle: Vehicle,
    before: Seq<char>,
    c: char,
    after: Seq<char>,
)
    requires
        Command::parse(c) is None,
    ensures
        vehicle.run(before + seq![c] + after) == vehicle.run(before + after),
        vehicle.halts(before + seq![c] + after) == vehicle.halts(before + after),
{
    let tail = seq![c] + after;
    assert(before + seq![c] + after == before + tail);
    assert(tail.drop_first() == after);
    lemma_run_of_joined(vehicle, before, tail);
    lemma_run_of_joined(vehicle, before, after);
}

/// A run leaves the grid as it is and the vehicle on a cell of it, and a
/// vehicle that starts clear of the rocks ends clear of them.
pub proof fn lemma_run_stays_valid(vehicle: Vehicle, commands: Seq<char>)
    requires
        vehicle.in_bounds(),
    ensures
        vehicle.run(commands).grid == vehicle.grid,
        vehicle.run(commands).in_bounds(),
        !vehicle.collides() ==> !vehicle.run(commands).collides(),
    decreases commands.len(),
{
    if commands.len() > 0 && !vehicle.blocked_by(commands[0]) {
        lemma_run_stays_valid(vehicle.step(commands[0]), commands.drop_first());
    }
}

/// A run sees of the rocks only which cells they cover: on two grids of
/// the same ground, the same commands from the same pose meet a rock on
/// both or on neither, and arrive at the same pose.
pub proof fn lemma_run_sees_rocks_by_cell(vehicle: Vehicle, other: Grid, commands: Seq<char>)
    requires
        vehicle.in_bounds(),
        vehicle.grid.same_ground(other),
    ensures
        ({
            let twin = Vehicle { pose: vehicle.pose, grid: other };
            &&& twin.halts(commands) == vehicle.halts(commands)
            &&& twin.run(commands).pose == vehicle.run(commands).pose
        }),
    decreases commands.len(),
{
    if commands.len() > 0 && !vehicle.blocked_by(commands[0]) {
        lemma_run_sees_rocks_by_cell(vehicle.step(commands[0]), other, commands.drop_first());
    }
}

/// Drives a rover by command strings. The rover it holds is where every
/// run starts; a run does not change it.
pub struct ServoCommand {
    rover: Rover,
}

impl View for ServoCommand {
    type V = Vehicle;

    closed spec fn view(&self) -> Vehicle {
        self.rover@
    }
}

impl ServoCommand {
    /// A servo whose runs start from `rover`.
    pub fn from(rover: Rover) -> (servo: ServoCommand)
        ensures
            servo@ == rover@,
    {
        ServoCommand { rover }
    }

    /// Runs `commands` on a copy of the rover, one character at a time
    /// from the left. A character that stands for no command is passed
    /// over. In `Ok` comes the rover after all of them; in `Err`, where a
    /// command would have ended on a rock, the rover as it was before that
    /// command, beside the reason. Nothing after that command is read.
    pub fn try_move_rover(&self, commands: &str) -> (driven: Result<Rover, CheckCollisionError>)
        ensures
            match driven {
                Ok(rover) => rover@ == self@.run(commands@) && !self@.halts(commands@),
                Err((rover, _)) => rover@ == self@.run(commands@) && self@.halts(commands@),
            },
    {
        let mut rover = self.rover.clone();
        let mut rest = commands.chars();
        loop
            invariant
                rest.obeys_prophetic_iter_laws(),
                rest.decrease() is Some,
                self@.run(commands@) == rover@.run(rest.remaining()),
                self@.halts(commands@) == rover@.halts(rest.remaining()),
            decreases rest.decrease()->0,
        {
            match rest.next() {
                None => {
                    return Ok(rover);
                },
                Some(c) => {
                    if let Some(command) = Command::from(c) {
                        match rover.try_apply(command) {
                            Ok(moved) => {
                                rover = moved;
                            },
                            Err(halted) => {
                                return Err(halted);
                            },
                        }
                    }
                },
            }
        }
    }

    /// Runs `commands` as [`ServoCommand::try_move_rover`] does and hands
    /// back the rover alone: where the run stopped, or after all of it.
    pub fn move_rover(&self, commands: &str) -> (rover: Rover)
        ensures
            rover@ == self@.run(commands@),
    {
        match self.try_move_rover(commands) {
            Ok(rover) => rover,
            Err((rover, _)) => rover,
        }
    }
}

} // verus!
