use drl::world::{Action, GridWorld, MoveStatus};

#[test]
fn test_create_grid_world_static() {
    let world = GridWorld::new(5, String::from("static"));
    println!("{}", world.board.render());
    assert_eq!(world.validate_board(), true);
}

#[test]
fn test_crate_grid_world_player() {
    let world = GridWorld::new(5, String::from("player"));
    println!("{}", world.board.render());
    assert_eq!(world.validate_board(), true);
}

#[test]
fn test_crate_grid_world_random() {
    let world = GridWorld::new(5, String::from("random"));
    println!("{}", world.board.render());
    assert_eq!(world.validate_board(), true);
}

#[test]
fn test_move() {
    let mut world = GridWorld::new(4, String::from("static"));
    println!("{}", world.display());

    world.make_move(Action::DOWN);
    world.make_move(Action::DOWN);
    world.make_move(Action::LEFT);
    world.make_move(Action::LEFT);
    world.make_move(Action::LEFT);
    world.make_move(Action::UP);
    world.make_move(Action::UP);
    world.make_move(Action::RIGHT);
    println!("{}", world.display());

    println!("{}", world.reward());
    println!("{:?}", world.board.render_array());
}

#[test]
fn test_crate_validate_board0() {
    let mut world = GridWorld::new(5, String::from("static"));
    world.board.add_piece(String::from("Player"), String::from("P"), (0, 0));
    world.board.add_piece(String::from("Wall"), String::from("W"), (0, 1));
    world.board.add_piece(String::from("Pit"), String::from("-"), (1, 0));
    world.board.add_piece(String::from("Goal"), String::from("+"), (4, 4));

    println!("{}", world.board.render());
    assert_eq!(world.validate_board(), false);

    world.board.add_piece(String::from("Goal"), String::from("+"), (0, 0));
    world.board.add_piece(String::from("Player"), String::from("P"), (4, 4));

    println!("{}", world.board.render());
    assert_eq!(world.validate_board(), false);
}

#[test]
fn test_crate_validate_board1() {
    let mut world = GridWorld::new(5, String::from("static"));
    world.board.add_piece(String::from("Player"), String::from("P"), (0, 4));
    world.board.add_piece(String::from("Wall"), String::from("W"), (0, 3));
    world.board.add_piece(String::from("Pit"), String::from("-"), (1, 4));

    println!("{}", world.board.render());
    assert_eq!(world.validate_board(), false);

    world.board.add_piece(String::from("Goal"), String::from("+"), (0, 4));
    world.board.add_piece(String::from("Player"), String::from("P"), (0, 0));

    println!("{}", world.board.render());
    assert_eq!(world.validate_board(), false);
}

#[test]
fn test_crate_validate_board2() {
    let mut world = GridWorld::new(5, String::from("static"));
    world.board.add_piece(String::from("Player"), String::from("P"), (4, 0));
    world.board.add_piece(String::from("Wall"), String::from("W"), (4, 1));
    world.board.add_piece(String::from("Pit"), String::from("-"), (3, 0));

    println!("{}", world.board.render());
    assert_eq!(world.validate_board(), false);

    world.board.add_piece(String::from("Goal"), String::from("+"), (4, 0));
    world.board.add_piece(String::from("Player"), String::from("P"), (0, 0));

    println!("{}", world.board.render());
    assert_eq!(world.validate_board(), false);
}

#[test]
fn test_crate_validate_board3() {
    let mut world = GridWorld::new(5, String::from("static"));
    world.board.add_piece(String::from("Player"), String::from("P"), (4, 4));
    world.board.add_piece(String::from("Wall"), String::from("W"), (3, 4));
    world.board.add_piece(String::from("Pit"), String::from("-"), (4, 3));

    println!("{}", world.board.render());
    assert_eq!(world.validate_board(), false);

    world.board.add_piece(String::from("Goal"), String::from("+"), (4, 4));
    world.board.add_piece(String::from("Player"), String::from("P"), (0, 0));

    println!("{}", world.board.render());
    assert_eq!(world.validate_board(), false);
}

#[test]
fn test_validate_board_rejects_shared_cell() {
    let mut world = GridWorld::new(5, String::from("static"));
    assert_eq!(world.validate_board(), true);
    world.board.add_piece(String::from("Player"), String::from("P"), (0, 1));
    assert_eq!(world.validate_board(), false);
}

#[test]
fn test_make_move_steps_by_unit_direction() {
    let mut world = GridWorld::new(4, String::from("static"));
    assert_eq!(world.board.components[0].pos, (0, 3));
    world.make_move(Action::DOWN);
    assert_eq!(world.board.components[0].pos, (1, 3));
    world.make_move(Action::RIGHT);
    assert_eq!(world.board.components[0].pos, (1, 3));
    world.make_move(Action::LEFT);
    assert_eq!(world.board.components[0].pos, (1, 2));
    world.make_move(Action::LEFT);
    assert_eq!(world.board.components[0].pos, (1, 2));
    world.make_move(Action::UP);
    assert_eq!(world.board.components[0].pos, (0, 2));
}

#[test]
fn test_validate_move_statuses() {
    let world = GridWorld::new(4, String::from("static"));
    assert_eq!(world.validate_move(String::from("Player"), (0, -1)), MoveStatus::Valid);
    assert_eq!(world.validate_move(String::from("Player"), (0, 1)), MoveStatus::Blocked);
    assert_eq!(world.validate_move(String::from("Player"), (-1, 0)), MoveStatus::Blocked);
    assert_eq!(world.validate_move(String::from("Goal"), (0, 1)), MoveStatus::Lethal);
    assert_eq!(world.validate_move(String::from("Pit"), (1, 0)), MoveStatus::Blocked);
}

#[test]
fn test_reward_values() {
    let mut world = GridWorld::new(4, String::from("static"));
    assert!(world.reward() as f64 == -1.0);
    world.make_move(Action::LEFT);
    world.make_move(Action::LEFT);
    assert!(world.reward() as f64 == -10.0);
    world.make_move(Action::LEFT);
    assert!(world.reward() as f64 == 10.0);
}

#[test]
fn test_scenario_three_lefts_reach_goal() {
    let mut world = GridWorld::new(4, String::from("static"));
    world.make_move(Action::LEFT);
    world.make_move(Action::LEFT);
    world.make_move(Action::LEFT);
    assert_eq!(world.board.components[0].pos, (0, 0));
    assert!(world.reward() as f64 == 10.0);
}

#[test]
fn test_scenario_down_left() {
    let mut world = GridWorld::new(4, String::from("static"));
    world.make_move(Action::DOWN);
    world.make_move(Action::LEFT);
    assert_eq!(world.board.components[0].pos, (1, 2));
    assert!(world.reward() as f64 == -1.0);
}

#[test]
fn test_new_clamps_size() {
    let world = GridWorld::new(2, String::from("static"));
    assert_eq!(world.board.size, 4);
    let world = GridWorld::new(7, String::from("random"));
    assert_eq!(world.board.size, 7);
}
