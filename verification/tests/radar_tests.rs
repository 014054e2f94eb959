use mars_rover::radar::Direction;
use mars_rover::radar::Position;
use mars_rover::radar::Radar;

#[test]
fn unit_steps_change_one_coordinate_by_one() {
    let p = Position { x: 3, y: -7 };

    assert_eq!(p.move_east(), Position { x: 4, y: -7 });
    assert_eq!(p.move_west(), Position { x: 2, y: -7 });
    assert_eq!(p.move_north(), Position { x: 3, y: -6 });
    assert_eq!(p.move_south(), Position { x: 3, y: -8 });
}

#[test]
fn turns_walk_the_compass_in_quarter_steps() {
    assert_eq!(Direction::NORTH.turn_left(), Direction::WEST);
    assert_eq!(Direction::WEST.turn_left(), Direction::SOUTH);
    assert_eq!(Direction::SOUTH.turn_left(), Direction::EAST);
    assert_eq!(Direction::EAST.turn_left(), Direction::NORTH);
    assert_eq!(Direction::NORTH.turn_right(), Direction::EAST);
    assert_eq!(Direction::EAST.turn_right(), Direction::SOUTH);
    assert_eq!(Direction::SOUTH.turn_right(), Direction::WEST);
    assert_eq!(Direction::WEST.turn_right(), Direction::NORTH);
}

#[test]
fn a_left_turn_then_a_right_turn_is_the_identity() {
    for d in [Direction::NORTH, Direction::EAST, Direction::SOUTH, Direction::WEST] {
        assert_eq!(d.turn_left().turn_right(), d);
        assert_eq!(d.turn_right().turn_left(), d);
    }
}

#[test]
fn four_turns_return_to_the_original_direction() {
    for d in [Direction::NORTH, Direction::EAST, Direction::SOUTH, Direction::WEST] {
        assert_eq!(d.turn_left().turn_left().turn_left().turn_left(), d);
        assert_eq!(d.turn_right().turn_right().turn_right().turn_right(), d);
    }
}

#[test]
fn forward_then_backward_returns_to_the_start() {
    let mut radar = Radar::new(5, Position { x: 2, y: 3 }, Direction::EAST);

    assert!(radar.move_forward().is_ok());
    assert_eq!(radar.position(), Position { x: 3, y: 3 });
    assert!(radar.move_backward().is_ok());
    assert_eq!(radar.position(), Position { x: 2, y: 3 });
    assert_eq!(radar.direction(), Direction::EAST);
}

#[test]
fn forward_at_the_north_edge_wraps_to_the_south_edge() {
    let mut radar = Radar::new(4, Position { x: 0, y: 4 }, Direction::NORTH);

    assert!(radar.move_forward().is_ok());

    assert_eq!(radar.position(), Position { x: 0, y: -4 });
}

#[test]
fn wrap_around_edge_clamps_each_axis_to_the_opposite_edge() {
    let mut radar = Radar::new(2, Position { x: 3, y: -5 }, Direction::NORTH);

    radar.wrap_around_edge();

    assert_eq!(radar.position(), Position { x: -2, y: 2 });
}

#[test]
fn move_forward_into_an_obstacle_fails_and_keeps_the_state() {
    let mut radar = Radar::new_with_obstacles(
        1,
        Position { x: 0, y: 0 },
        Direction::NORTH,
        vec![Position { x: 0, y: 1 }],
    );

    assert!(radar.move_forward().is_err());

    assert_eq!(radar.position(), Position { x: 0, y: 0 });
    assert_eq!(radar.direction(), Direction::NORTH);
}

#[test]
fn an_obstacle_past_the_edge_blocks_before_the_wrap() {
    let mut radar = Radar::new_with_obstacles(
        1,
        Position { x: 0, y: 1 },
        Direction::NORTH,
        vec![Position { x: 0, y: 2 }],
    );

    assert!(radar.move_forward().is_err());

    assert_eq!(radar.position(), Position { x: 0, y: 1 });
}

#[test]
fn an_obstacle_on_the_wrapped_cell_never_blocks() {
    let mut radar = Radar::new_with_obstacles(
        1,
        Position { x: 0, y: 1 },
        Direction::NORTH,
        vec![Position { x: 0, y: -1 }],
    );

    assert!(radar.move_forward().is_ok());

    assert_eq!(radar.position(), Position { x: 0, y: -1 });
}
