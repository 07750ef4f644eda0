use mars_rover::command::Command;
use mars_rover::error::{CollisionError, ConstructionError};
use mars_rover::orientation::Orientation;
use mars_rover::planet::{Planet, Rock};
use mars_rover::position::Position;
use mars_rover::rover::Rover;

fn pose_of(rover: &Rover) -> (usize, usize, Orientation) {
    let position = rover.get_position();
    (position.get_x(), position.get_y(), position.orientation)
}

#[test]
fn test_from() {
    let rover = Rover::from(
        Position::from(20, 0, Orientation::North),
        Planet::from((10, 10), vec![]),
    );
    assert!(rover.is_err());

    let rover = Rover::from(
        Position::from(0, 20, Orientation::North),
        Planet::from((10, 10), vec![]),
    );
    assert!(rover.is_err());

    let rover = Rover::from(
        Position::from(5, 5, Orientation::North),
        Planet::from((10, 10), vec![Rock::from(5, 5)]),
    );
    assert!(rover.is_err());

    let rover = Rover::from(
        Position::from(5, 5, Orientation::North),
        Planet::from((10, 10), vec![]),
    );
    assert!(rover.is_ok());
}

#[test]
fn test_apply() {
    let cases = [
        ((Orientation::North, Command::MoveBackward), (5, 4, Orientation::North)),
        ((Orientation::North, Command::MoveForward), (5, 6, Orientation::North)),
        ((Orientation::North, Command::PivotLeft), (5, 5, Orientation::West)),
        ((Orientation::North, Command::PivotRight), (5, 5, Orientation::East)),
        ((Orientation::West, Command::MoveBackward), (6, 5, Orientation::West)),
        ((Orientation::West, Command::MoveForward), (4, 5, Orientation::West)),
        ((Orientation::West, Command::PivotLeft), (5, 5, Orientation::South)),
        ((Orientation::West, Command::PivotRight), (5, 5, Orientation::North)),
        ((Orientation::South, Command::MoveBackward), (5, 6, Orientation::South)),
        ((Orientation::South, Command::MoveForward), (5, 4, Orientation::South)),
        ((Orientation::South, Command::PivotLeft), (5, 5, Orientation::East)),
        ((Orientation::South, Command::PivotRight), (5, 5, Orientation::West)),
        ((Orientation::East, Command::MoveBackward), (4, 5, Orientation::East)),
        ((Orientation::East, Command::MoveForward), (6, 5, Orientation::East)),
        ((Orientation::East, Command::PivotLeft), (5, 5, Orientation::North)),
        ((Orientation::East, Command::PivotRight), (5, 5, Orientation::South)),
    ];
    for (input, expected) in cases {
        let rover = Rover::from(
            Position::from(5, 5, input.0),
            Planet::from((10, 10), vec![]),
        )
        .unwrap();

        let new_rover = rover.apply(input.1);

        assert_eq!(new_rover.get_position().get_x(), expected.0);
        assert_eq!(new_rover.get_position().get_y(), expected.1);
        assert_eq!(new_rover.get_position().orientation, expected.2);
    }
}

#[test]
fn test_check_collision() {
    let rover = Rover::from(
        Position::from(2, 2, Orientation::North),
        Planet::from((5, 5), vec![Rock::from(4, 4), Rock::from(1, 3)]),
    );
    assert!(rover.is_ok());
    assert!(rover.unwrap().check_collision().is_ok());

    let rover = Rover::from(
        Position::from(1, 3, Orientation::South),
        Planet::from((5, 5), vec![Rock::from(1, 3), Rock::from(4, 4)]),
    );
    assert!(rover.is_err());
}

#[test]
fn from_out_of_bounds_in_x_or_y() {
    for (x, y) in [(10, 0), (0, 10), (10, 10), (20, 3), (3, 20), (usize::MAX, usize::MAX)] {
        let made = Rover::from(
            Position::from(x, y, Orientation::East),
            Planet::from((10, 10), vec![Rock::from(1, 1)]),
        );
        assert_eq!(made.unwrap_err(), ConstructionError::OutOfBounds);
    }
}

#[test]
fn from_on_the_last_cell_is_in_bounds() {
    let made = Rover::from(Position::from(9, 4, Orientation::West), Planet::from((10, 5), vec![]));
    assert_eq!(pose_of(&made.unwrap()), (9, 4, Orientation::West));
}

#[test]
fn from_on_a_planet_without_cells() {
    for size in [(0, 0), (0, 5), (5, 0)] {
        let made = Rover::from(Position::from(0, 0, Orientation::North), Planet::from(size, vec![]));
        assert_eq!(made.unwrap_err(), ConstructionError::OutOfBounds);
    }
}

#[test]
fn from_on_a_rock() {
    let made = Rover::from(
        Position::from(5, 5, Orientation::North),
        Planet::from((10, 10), vec![Rock::from(0, 0), Rock::from(5, 5)]),
    );
    assert_eq!(made.unwrap_err(), ConstructionError::InitialCollision);
}

#[test]
fn from_beside_a_rock() {
    for (x, y) in [(5, 4), (4, 5), (6, 5), (5, 6)] {
        let made = Rover::from(
            Position::from(x, y, Orientation::North),
            Planet::from((10, 10), vec![Rock::from(5, 5)]),
        );
        assert_eq!(pose_of(&made.unwrap()), (x, y, Orientation::North));
    }
}

#[test]
fn from_checks_bounds_before_rocks() {
    let made = Rover::from(
        Position::from(20, 0, Orientation::North),
        Planet::from((10, 10), vec![Rock::from(20, 0)]),
    );
    assert_eq!(made.unwrap_err(), ConstructionError::OutOfBounds);
}

#[test]
fn from_keeps_position_and_planet() {
    let rocks = vec![Rock::from(1, 1), Rock::from(3, 2), Rock::from(1, 1)];
    let rover = Rover::from(
        Position::from(2, 3, Orientation::South),
        Planet::from((4, 6), rocks.clone()),
    )
    .unwrap();
    assert_eq!(pose_of(&rover), (2, 3, Orientation::South));
    let planet = rover.get_planet();
    assert_eq!(planet.get_size(), (4, 6));
    assert_eq!(planet.get_rocks(), rocks);
}

#[test]
fn error_messages() {
    assert_eq!(ConstructionError::OutOfBounds.message(), "out of bounds");
    assert_eq!(
        ConstructionError::InitialCollision.message(),
        "rover crashes directly on a rock"
    );
    assert_eq!(CollisionError.message(), "collision with rock");
}

#[test]
fn check_collision_hands_the_rover_back_either_way() {
    let planet = Planet::from((5, 5), vec![Rock::from(2, 3)]);
    let rover = Rover::from(Position::from(2, 2, Orientation::North), planet).unwrap();
    let rover = rover.check_collision().unwrap();
    assert_eq!(pose_of(&rover), (2, 2, Orientation::North));

    let on_rock = rover.apply(Command::MoveForward);
    assert_eq!(pose_of(&on_rock), (2, 3, Orientation::North));
    let (rover, error) = on_rock.check_collision().unwrap_err();
    assert_eq!(error, CollisionError);
    assert_eq!(pose_of(&rover), (2, 3, Orientation::North));
    assert_eq!(rover.get_planet().get_rocks(), vec![Rock::from(2, 3)]);
}

#[test]
fn apply_looks_for_no_rock() {
    let planet = Planet::from((3, 3), vec![Rock::from(1, 0)]);
    let rover = Rover::from(Position::from(0, 0, Orientation::East), planet).unwrap();
    let moved = rover.apply(Command::MoveForward);
    assert_eq!(pose_of(&moved), (1, 0, Orientation::East));
}

#[test]
fn apply_wraps_at_the_edges_of_the_planet() {
    let cases = [
        ((9, 3, Orientation::East), Command::MoveForward, (0, 3)),
        ((3, 4, Orientation::North), Command::MoveForward, (3, 0)),
        ((0, 3, Orientation::West), Command::MoveForward, (9, 3)),
        ((3, 0, Orientation::South), Command::MoveForward, (3, 4)),
        ((0, 3, Orientation::East), Command::MoveBackward, (9, 3)),
        ((3, 0, Orientation::North), Command::MoveBackward, (3, 4)),
        ((9, 3, Orientation::West), Command::MoveBackward, (0, 3)),
        ((3, 4, Orientation::South), Command::MoveBackward, (3, 0)),
    ];
    for ((x, y, o), command, expected) in cases {
        let rover =
            Rover::from(Position::from(x, y, o), Planet::from((10, 5), vec![])).unwrap();
        let moved = rover.apply(command);
        assert_eq!(pose_of(&moved), (expected.0, expected.1, o));
    }
}

#[test]
fn apply_on_a_planet_of_one_cell() {
    let rover =
        Rover::from(Position::from(0, 0, Orientation::North), Planet::from((1, 1), vec![])).unwrap();
    let rover = rover.apply(Command::MoveForward);
    assert_eq!(pose_of(&rover), (0, 0, Orientation::North));
    let rover = rover.apply(Command::MoveBackward);
    assert_eq!(pose_of(&rover), (0, 0, Orientation::North));
    let rover = rover.apply(Command::PivotLeft);
    assert_eq!(pose_of(&rover), (0, 0, Orientation::West));
}

#[test]
fn opposite_commands_cancel_on_every_cell() {
    let pairs = [
        (Command::MoveForward, Command::MoveBackward),
        (Command::MoveBackward, Command::MoveForward),
        (Command::PivotLeft, Command::PivotRight),
        (Command::PivotRight, Command::PivotLeft),
    ];
    for o in [Orientation::North, Orientation::East, Orientation::South, Orientation::West] {
        for x in 0..3 {
            for y in 0..2 {
                for (there, back) in pairs {
                    let rover =
                        Rover::from(Position::from(x, y, o), Planet::from((3, 2), vec![]))
                            .unwrap();
                    let rover = rover.apply(there).apply(back);
                    assert_eq!(pose_of(&rover), (x, y, o));
                }
            }
        }
    }
}

#[test]
fn try_apply_moves_where_no_rock_lies() {
    let planet = Planet::from((3, 3), vec![Rock::from(2, 2)]);
    let rover = Rover::from(Position::from(0, 0, Orientation::East), planet).unwrap();
    let moved = rover.try_apply(Command::MoveForward).unwrap();
    assert_eq!(pose_of(&moved), (1, 0, Orientation::East));
}

#[test]
fn try_apply_keeps_the_rover_before_a_rock() {
    let planet = Planet::from((3, 3), vec![Rock::from(1, 0)]);
    let rover = Rover::from(Position::from(0, 0, Orientation::East), planet).unwrap();
    let (kept, error) = rover.try_apply(Command::MoveForward).unwrap_err();
    assert_eq!(error, CollisionError);
    assert_eq!(pose_of(&kept), (0, 0, Orientation::East));
    assert_eq!(kept.get_planet().get_size(), (3, 3));
    assert_eq!(kept.get_planet().get_rocks(), vec![Rock::from(1, 0)]);
}

#[test]
fn try_apply_meets_a_rock_across_the_edge() {
    let planet = Planet::from((3, 3), vec![Rock::from(2, 0)]);
    let rover = Rover::from(Position::from(0, 0, Orientation::West), planet).unwrap();
    let (kept, _) = rover.try_apply(Command::MoveForward).unwrap_err();
    assert_eq!(pose_of(&kept), (0, 0, Orientation::West));
}

#[test]
fn a_rover_on_a_rock_cannot_even_turn() {
    let planet = Planet::from((3, 3), vec![Rock::from(1, 0)]);
    let rover = Rover::from(Position::from(0, 0, Orientation::East), planet).unwrap();
    let on_rock = rover.apply(Command::MoveForward);
    let (kept, _) = on_rock.try_apply(Command::PivotLeft).unwrap_err();
    assert_eq!(pose_of(&kept), (1, 0, Orientation::East));
}

#[test]
fn clone_is_the_same_rover() {
    let planet = Planet::from((3, 4), vec![Rock::from(1, 0), Rock::from(2, 2)]);
    let rover = Rover::from(Position::from(0, 3, Orientation::South), planet).unwrap();
    let copy = rover.clone();
    assert_eq!(pose_of(&copy), pose_of(&rover));
    assert_eq!(copy.get_planet().get_size(), (3, 4));
    assert_eq!(copy.get_planet().get_rocks(), rover.get_planet().get_rocks());
}
