use drl::board::{rand_pos, GridBoard};

#[test]
fn test_board_render() {
    let mut board = GridBoard::new(5);
    board.add_piece(String::from("Player"), String::from("P"), (3, 3));
    board.add_piece(String::from("Goal"), String::from("O"), (1, 1));
    let text = board.render();
    let expected = " *  *  *  *  * \n *  O  *  *  * \n *  *  *  *  * \n *  *  *  P  * \n *  *  *  *  * \n\n";
    assert_eq!(text, expected);
}

#[test]
fn test_render_shows_first_piece_on_shared_cell() {
    let mut board = GridBoard::new(4);
    board.add_piece(String::from("Player"), String::from("P"), (2, 2));
    board.add_piece(String::from("Goal"), String::from("+"), (2, 2));
    let text = board.render();
    assert!(text.contains(" P "));
    assert!(!text.contains(" + "));
}

#[test]
fn test_add_piece_replaces_by_name() {
    let mut board = GridBoard::new(4);
    board.add_piece(String::from("Player"), String::from("P"), (0, 0));
    board.add_piece(String::from("Player"), String::from("P"), (2, 1));
    assert_eq!(board.components.len(), 1);
    assert_eq!(board.components[0].pos, (2, 1));
    assert_eq!(board.components[0].name, "Player");
}

#[test]
fn test_rand_pos_stays_in_range() {
    for _ in 0..200 {
        let p = rand_pos(5, 9);
        assert!(p.0 >= 5 && p.0 < 9);
        assert!(p.1 >= 5 && p.1 < 9);
    }
    for _ in 0..50 {
        let p = rand_pos(0, 1);
        assert_eq!(p, (0, 0));
    }
}

#[test]
fn test_render_array_one_hot() {
    let mut board = GridBoard::new(4);
    board.add_piece(String::from("Player"), String::from("P"), (0, 3));
    board.add_piece(String::from("Goal"), String::from("+"), (0, 0));
    board.add_piece(String::from("Pit"), String::from("-"), (0, 1));
    board.add_piece(String::from("Wall"), String::from("W"), (1, 1));
    let pattern = board.render_array();
    assert_eq!(pattern.len(), 64);
    for (j, v) in pattern.iter().enumerate() {
        let expected = if j == 3 || j == 16 || j == 33 || j == 53 { 1 } else { 0 };
        assert_eq!(*v, expected, "entry {}", j);
    }
}
