use mars_rover::planet::{Planet, Rock};

#[test]
fn rock_from_keeps_its_coordinates() {
    let rock = Rock::from(3, 8);
    assert_eq!(rock.x, 3);
    assert_eq!(rock.y, 8);
    assert_eq!(rock, Rock { x: 3, y: 8 });
    assert_ne!(rock, Rock::from(8, 3));
}

#[test]
fn planet_gives_back_size_and_rocks() {
    let rocks = vec![Rock::from(4, 4), Rock::from(1, 3), Rock::from(4, 4), Rock::from(70, 1)];
    let planet = Planet::from((5, 6), rocks.clone());
    assert_eq!(planet.get_size(), (5, 6));
    assert_eq!(planet.get_rocks(), rocks);
}

#[test]
fn planet_without_rocks() {
    let planet = Planet::from((2, 2), vec![]);
    assert_eq!(planet.get_rocks(), vec![]);
    assert!(!planet.has_rock_at(0, 0));
    assert!(!planet.has_rock_at(1, 1));
}

#[test]
fn has_rock_at_needs_both_coordinates() {
    let planet = Planet::from((5, 5), vec![Rock::from(4, 4), Rock::from(1, 3)]);
    assert!(planet.has_rock_at(4, 4));
    assert!(planet.has_rock_at(1, 3));
    assert!(!planet.has_rock_at(3, 1));
    assert!(!planet.has_rock_at(1, 4));
    assert!(!planet.has_rock_at(4, 3));
    assert!(!planet.has_rock_at(0, 0));
}

#[test]
fn has_rock_at_finds_the_last_and_the_repeated() {
    let planet =
        Planet::from((5, 5), vec![Rock::from(0, 0), Rock::from(2, 2), Rock::from(0, 0), Rock::from(3, 4)]);
    assert!(planet.has_rock_at(0, 0));
    assert!(planet.has_rock_at(3, 4));
}

#[test]
fn has_rock_at_outside_the_planet() {
    let planet = Planet::from((2, 2), vec![Rock::from(7, 9)]);
    assert!(planet.has_rock_at(7, 9));
    assert!(!planet.has_rock_at(1, 1));
}

#[test]
fn planet_clone_is_the_same_planet() {
    let planet = Planet::from((5, 6), vec![Rock::from(4, 4), Rock::from(1, 3)]);
    let copy = planet.clone();
    assert_eq!(copy.get_size(), planet.get_size());
    assert_eq!(copy.get_rocks(), planet.get_rocks());
}
