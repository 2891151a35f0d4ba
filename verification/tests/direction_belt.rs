use conveyor::{Belt, Direction, Turn};

const ALL_DIRECTIONS: [Direction; 4] = [
    Direction::West,
    Direction::North,
    Direction::East,
    Direction::South,
];

#[test]
fn rotate_clockwise_table() {
    assert_eq!(Direction::West.rotate_clockwise(), Direction::North);
    assert_eq!(Direction::North.rotate_clockwise(), Direction::East);
    assert_eq!(Direction::East.rotate_clockwise(), Direction::South);
    assert_eq!(Direction::South.rotate_clockwise(), Direction::West);
}

#[test]
fn rotate_anti_clockwise_table() {
    assert_eq!(Direction::West.rotate_anti_clockwise(), Direction::South);
    assert_eq!(Direction::North.rotate_anti_clockwise(), Direction::West);
    assert_eq!(Direction::East.rotate_anti_clockwise(), Direction::North);
    assert_eq!(Direction::South.rotate_anti_clockwise(), Direction::East);
}

#[test]
fn flip_table() {
    assert_eq!(Direction::West.flip(), Direction::East);
    assert_eq!(Direction::North.flip(), Direction::South);
    assert_eq!(Direction::East.flip(), Direction::West);
    assert_eq!(Direction::South.flip(), Direction::North);
}

#[test]
fn rotate_clockwise_then_anti_clockwise_is_identity() {
    for d in ALL_DIRECTIONS {
        assert_eq!(d.rotate_clockwise().rotate_anti_clockwise(), d);
        assert_eq!(d.rotate_anti_clockwise().rotate_clockwise(), d);
    }
}

#[test]
fn flip_twice_is_identity() {
    for d in ALL_DIRECTIONS {
        assert_eq!(d.flip().flip(), d);
    }
}

#[test]
fn four_clockwise_rotations_are_identity() {
    for d in ALL_DIRECTIONS {
        assert_eq!(
            d.rotate_clockwise()
                .rotate_clockwise()
                .rotate_clockwise()
                .rotate_clockwise(),
            d
        );
    }
}

#[test]
fn fresh_belt_is_straight_west_to_east() {
    let b = Belt::new();
    assert_eq!(b.input, Direction::West);
    assert_eq!(b.output, Direction::East);
    assert_eq!(b.turn(), Turn::Forward);
}

#[test]
fn turn_matches_rotation_count() {
    for input in ALL_DIRECTIONS {
        let one = input.rotate_clockwise();
        let two = one.rotate_clockwise();
        let three = two.rotate_clockwise();
        assert_eq!(Belt { input, output: one }.turn(), Turn::Left);
        assert_eq!(Belt { input, output: two }.turn(), Turn::Forward);
        assert_eq!(Belt { input, output: three }.turn(), Turn::Right);
    }
}

#[test]
fn turn_concrete_examples() {
    let left = Belt { input: Direction::West, output: Direction::North };
    assert_eq!(left.turn(), Turn::Left);
    let forward = Belt { input: Direction::West, output: Direction::East };
    assert_eq!(forward.turn(), Turn::Forward);
    let right = Belt { input: Direction::West, output: Direction::South };
    assert_eq!(right.turn(), Turn::Right);
}
