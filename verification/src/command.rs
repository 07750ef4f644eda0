//! The four commands and the characters that stand for them.

use vstd::prelude::*;

verus! {

/// One action of the rover.
#[derive(Copy, Clone, Debug, PartialEq, Eq, Structural)]
pub enum Command {
    MoveBackward,
    MoveForward,
    PivotLeft,
    PivotRight,
}

impl Command {
    /// The command that the character `c` stands for, if any:
    /// `b`, `f`, `l` and `r`, in lower case only.
    pub open spec fn parse(c: char) -> Option<Command> {
        if c == 'b' {
            Some(Command::MoveBackward)
        } else if c == 'f' {
            Some(Command::MoveForward)
        } else if c == 'l' {
            Some(Command::PivotLeft)
        } else if c == 'r' {
            Some(Command::PivotRight)
        } else {
            None
        }
    }

    /// Reads one character of a command string. A character that stands
    /// for no command gives `None`; it is not an error.
    #[verifier::when_used_as_spec(parse)]
    pub fn from(c: char) -> (command: Option<Command>)
        ensures
            command == Command::parse(c),
    {
        match c {
            'b' => Some(Command::MoveBackward),
            'f' => Some(Command::MoveForward),
            'l' => Some(Command::PivotLeft),
            'r' => Some(Command::PivotRight),
            _ => None,
        }
    }
}

} // verus!
