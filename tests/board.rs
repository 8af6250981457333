use muehle::{Board, Player};

fn filled(stones: &[(u8, Player)]) -> Board {
    let mut b = Board::new();
    for &(x, p) in stones {
        assert!(b.place(x, p));
    }
    b
}

fn snapshot(b: &Board) -> Vec<Player> {
    (0..24u8).map(|x| b.occupant(x)).collect()
}

#[test]
fn fresh_board_is_empty() {
    let b = Board::new();
    for x in 0..24u8 {
        assert_eq!(b.occupant(x), Player::Nobody);
        assert!(!b.is_occupied(x));
        assert!(!b.is_part_of_mill(x));
    }
    assert_eq!(b.number_of_stones(Player::One), 0);
    assert_eq!(b.number_of_stones(Player::Two), 0);
    assert_eq!(b.number_of_stones(Player::Nobody), 24);
}

#[test]
fn adjacency_is_symmetric() {
    let b = Board::new();
    for x in 0..30u8 {
        for y in 0..30u8 {
            assert_eq!(b.allowed_move(x, y), b.allowed_move(y, x), "{} {}", x, y);
        }
    }
}

#[test]
fn adjacency_follows_the_board() {
    let b = Board::new();
    assert!(b.allowed_move(0, 1));
    assert!(b.allowed_move(0, 9));
    assert!(!b.allowed_move(0, 2));
    assert!(!b.allowed_move(0, 0));
    assert!(b.allowed_move(9, 10));
    assert!(b.allowed_move(19, 16));
    assert!(b.allowed_move(19, 22));
    assert!(b.allowed_move(4, 7));
    assert!(!b.allowed_move(4, 13));
    assert!(!b.allowed_move(24, 0));
    assert!(!b.allowed_move(23, 24));
    let mut edges = 0;
    for x in 0..24u8 {
        for y in 0..24u8 {
            if b.allowed_move(x, y) {
                edges += 1;
            }
        }
    }
    assert_eq!(edges, 64);
}

#[test]
fn place_twice_is_refused() {
    let mut b = Board::new();
    assert!(b.place(7, Player::Two));
    let before = snapshot(&b);
    assert!(!b.place(7, Player::Two));
    assert_eq!(snapshot(&b), before);
    assert_eq!(b.occupant(7), Player::Two);
}

#[test]
fn place_off_the_board_is_refused() {
    let mut b = Board::new();
    assert!(!b.place(24, Player::One));
    assert!(!b.place(255, Player::One));
    assert_eq!(b.number_of_stones(Player::One), 0);
}

#[test]
fn jump_moves_the_stone_and_keeps_the_count() {
    let mut b = filled(&[(0, Player::One), (5, Player::One), (3, Player::Two)]);
    assert_eq!(b.number_of_stones(Player::One), 2);
    assert!(b.jump(0, 23, Player::One));
    assert_eq!(b.occupant(0), Player::Nobody);
    assert_eq!(b.occupant(23), Player::One);
    assert_eq!(b.number_of_stones(Player::One), 2);
    assert_eq!(b.number_of_stones(Player::Two), 1);
}

#[test]
fn jump_refusals_change_nothing() {
    let mut b = filled(&[(0, Player::One), (5, Player::One), (3, Player::Two)]);
    let before = snapshot(&b);
    assert!(!b.jump(0, 5, Player::One));
    assert!(!b.jump(0, 3, Player::One));
    assert!(!b.jump(3, 7, Player::One));
    assert!(!b.jump(1, 7, Player::One));
    assert!(!b.jump(0, 0, Player::One));
    assert!(!b.jump(0, 24, Player::One));
    assert!(!b.jump(24, 7, Player::One));
    assert_eq!(snapshot(&b), before);
}

#[test]
fn slide_needs_a_connected_point() {
    let mut b = filled(&[(4, Player::One)]);
    let before = snapshot(&b);
    assert!(!b.mv(4, 13, Player::One));
    assert_eq!(snapshot(&b), before);
    assert!(b.mv(4, 7, Player::One));
    assert_eq!(b.occupant(4), Player::Nobody);
    assert_eq!(b.occupant(7), Player::One);
}

#[test]
fn slide_refusals_change_nothing() {
    let mut b = filled(&[(4, Player::One), (7, Player::Two)]);
    let before = snapshot(&b);
    assert!(!b.mv(4, 7, Player::One));
    assert!(!b.mv(4, 5, Player::Two));
    assert!(!b.mv(3, 4, Player::One));
    assert_eq!(snapshot(&b), before);
}

#[test]
fn empty_point_is_never_in_a_mill() {
    let b = filled(&[(0, Player::One), (2, Player::One), (9, Player::One), (21, Player::One)]);
    assert!(!b.is_part_of_mill(1));
    assert!(b.is_part_of_mill(0));
    assert!(!b.is_part_of_mill(24));
}

#[test]
fn placement_scenario_closes_a_mill() {
    let mut b = Board::new();
    assert!(b.place(0, Player::One));
    assert!(!b.place(0, Player::Two));
    assert!(b.place(1, Player::One));
    assert!(b.place(2, Player::One));
    assert!(b.is_part_of_mill(0));
    assert!(b.is_part_of_mill(1));
    assert!(b.is_part_of_mill(2));
}

#[test]
fn mill_on_any_line_through_the_point() {
    let b = filled(&[(1, Player::One), (4, Player::One), (7, Player::One), (0, Player::Two)]);
    assert!(b.is_part_of_mill(1));
    assert!(b.is_part_of_mill(4));
    assert!(!b.is_part_of_mill(0));
}

#[test]
fn mixed_line_is_no_mill() {
    let b = filled(&[(21, Player::One), (22, Player::Two), (23, Player::One)]);
    assert!(!b.is_part_of_mill(21));
    assert!(!b.is_part_of_mill(22));
}

#[test]
fn get_mill_reports_the_first_full_line() {
    let b = Board::new();
    let (p, line) = b.get_mill();
    assert_eq!(p, Player::Nobody);
    assert!(line.is_none());

    let b = filled(&[
        (9, Player::Two),
        (10, Player::Two),
        (11, Player::Two),
        (3, Player::One),
        (18, Player::One),
    ]);
    let (p, line) = b.get_mill();
    assert_eq!(p, Player::Two);
    assert_eq!(line, Some(vec![9, 10, 11]));

    let b = filled(&[
        (9, Player::Two),
        (10, Player::Two),
        (11, Player::Two),
        (6, Player::One),
        (7, Player::One),
        (8, Player::One),
    ]);
    let (p, line) = b.get_mill();
    assert_eq!(p, Player::One);
    assert_eq!(line, Some(vec![6, 7, 8]));
}

#[test]
fn remove_takes_only_the_named_players_stone() {
    let mut b = filled(&[(5, Player::One), (6, Player::Two)]);
    assert!(!b.remove(5, Player::Two));
    assert!(!b.remove(7, Player::Two));
    assert!(!b.remove(24, Player::Two));
    assert!(!b.remove(7, Player::Nobody));
    assert!(b.remove(6, Player::Two));
    assert_eq!(b.occupant(6), Player::Nobody);
    assert_eq!(b.number_of_stones(Player::Two), 0);
    assert_eq!(b.occupant(5), Player::One);
}

#[test]
fn counts_follow_placements() {
    let b = filled(&[(0, Player::One), (23, Player::One), (12, Player::Two)]);
    assert_eq!(b.number_of_stones(Player::One), 2);
    assert_eq!(b.number_of_stones(Player::Two), 1);
    assert_eq!(b.number_of_stones(Player::Nobody), 21);
}

#[test]
fn pieces_and_names() {
    let b = filled(&[(0, Player::One), (1, Player::Two)]);
    assert_eq!(b.piece(0), "1");
    assert_eq!(b.piece(1), "2");
    assert_eq!(b.piece(2), "0");
    assert_eq!(b.piece(24), "0");
    assert_eq!(Player::One.name(), "Player One");
    assert_eq!(Player::Two.name(), "Player Two");
    assert_eq!(Player::Nobody.name(), "None (Draw)");
    assert_eq!(Player::One.opponent(), Player::Two);
    assert_eq!(Player::Two.opponent(), Player::One);
    assert_eq!(Player::Nobody.opponent(), Player::Nobody);
}
