//! A rover on a toroidal grid of cells, some of which hold rocks.
//!
//! A [`rover::Rover`] is a [`position::Position`] on a [`planet::Planet`].
//! Commands move it one cell forward or backward along its heading, or
//! turn it a quarter to the left or right. Moving past an edge of the
//! planet re-enters on the opposite edge. A run of commands stops before
//! the first move that would put the rover on a rock.
#![allow(unused_imports)]

pub mod chart;
pub mod command;
pub mod error;
pub mod orientation;
pub mod planet;
pub mod position;
pub mod rover;
pub mod servo_command;
