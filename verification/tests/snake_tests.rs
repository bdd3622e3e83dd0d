use snake_rs::{Direction, Position, Snake};

const ALL_DIRECTIONS: [Direction; 4] =
    [Direction::Up, Direction::Down, Direction::Left, Direction::Right];

fn segments(snake: &Snake) -> Vec<Position> {
    snake.body().iter().copied().collect()
}

/// A one-segment snake at `at` that heads in `heading`.
fn snake_heading(at: Position, heading: Direction) -> Snake {
    let mut snake = Snake::new(at);
    if heading == Direction::Left {
        snake.set_direction(Direction::Up);
    }
    snake.set_direction(heading);
    assert_eq!(snake.direction(), heading);
    snake
}

#[test]
fn position_new_keeps_coordinates() {
    let p = Position::new(7, 11);
    assert_eq!(p.x, 7);
    assert_eq!(p.y, 11);
    assert_eq!(p, Position { x: 7, y: 11 });
    assert_ne!(p, Position::new(11, 7));
}

#[test]
fn opposite_pairs_directions() {
    assert_eq!(Direction::Up.opposite(), Direction::Down);
    assert_eq!(Direction::Down.opposite(), Direction::Up);
    assert_eq!(Direction::Left.opposite(), Direction::Right);
    assert_eq!(Direction::Right.opposite(), Direction::Left);
}

#[test]
fn opposite_is_an_involution() {
    for d in ALL_DIRECTIONS {
        assert_eq!(d.opposite().opposite(), d);
        assert_ne!(d.opposite(), d);
    }
}

#[test]
fn new_snake_is_one_segment_heading_right() {
    let snake = Snake::new(Position::new(3, 4));
    assert_eq!(segments(&snake), vec![Position::new(3, 4)]);
    assert_eq!(snake.head(), Position::new(3, 4));
    assert_eq!(snake.direction(), Direction::Right);
    assert_eq!(snake.len(), 1);
    assert!(!snake.is_empty());
}

#[test]
fn set_direction_takes_every_turn_but_the_reversal() {
    for current in ALL_DIRECTIONS {
        for wanted in ALL_DIRECTIONS {
            let mut snake = snake_heading(Position::new(5, 5), current);
            snake.set_direction(wanted);
            if wanted == current.opposite() {
                assert_eq!(snake.direction(), current);
            } else {
                assert_eq!(snake.direction(), wanted);
            }
            assert_eq!(segments(&snake), vec![Position::new(5, 5)]);
        }
    }
}

#[test]
fn set_direction_ignores_reversal() {
    let mut snake = Snake::new(Position::new(5, 5));
    snake.set_direction(Direction::Left);
    assert_eq!(snake.direction(), Direction::Right);
}

#[test]
fn move_forward_single_segment_moves_one_unit() {
    let cases = [
        (Direction::Up, Position::new(5, 4)),
        (Direction::Down, Position::new(5, 6)),
        (Direction::Left, Position::new(4, 5)),
        (Direction::Right, Position::new(6, 5)),
    ];
    for (heading, expected) in cases {
        let mut snake = snake_heading(Position::new(5, 5), heading);
        let old_tail = snake.move_forward();
        assert_eq!(old_tail, Position::new(5, 5));
        assert_eq!(snake.len(), 1);
        assert_eq!(snake.head(), expected);
        assert_eq!(snake.direction(), heading);
    }
}

#[test]
fn move_forward_saturates_at_zero() {
    let mut up = snake_heading(Position::new(3, 0), Direction::Up);
    up.move_forward();
    assert_eq!(up.head(), Position::new(3, 0));

    let mut left = snake_heading(Position::new(0, 3), Direction::Left);
    left.move_forward();
    assert_eq!(left.head(), Position::new(0, 3));
    assert_eq!(left.len(), 1);
}

#[test]
fn move_forward_shifts_every_segment() {
    let mut snake = Snake::new(Position::new(3, 3));
    snake.grow(Position::new(2, 3));
    snake.grow(Position::new(1, 3));
    let old_tail = snake.move_forward();
    assert_eq!(old_tail, Position::new(1, 3));
    assert_eq!(
        segments(&snake),
        vec![Position::new(4, 3), Position::new(3, 3), Position::new(2, 3)]
    );
    snake.set_direction(Direction::Down);
    let old_tail = snake.move_forward();
    assert_eq!(old_tail, Position::new(2, 3));
    assert_eq!(
        segments(&snake),
        vec![Position::new(4, 4), Position::new(4, 3), Position::new(3, 3)]
    );
}

#[test]
fn move_forward_reaches_largest_coordinate() {
    let mut snake = Snake::new(Position::new(u16::MAX - 1, 0));
    snake.move_forward();
    assert_eq!(snake.head(), Position::new(u16::MAX, 0));
}

#[test]
fn wrapping_move_wraps_at_every_edge() {
    let (w, h) = (7u16, 4u16);
    let cases = [
        (Position::new(0, 2), Direction::Left, Position::new(w - 1, 2)),
        (Position::new(w - 1, 2), Direction::Right, Position::new(0, 2)),
        (Position::new(3, 0), Direction::Up, Position::new(3, h - 1)),
        (Position::new(3, h - 1), Direction::Down, Position::new(3, 0)),
    ];
    for (start, heading, expected) in cases {
        let mut snake = snake_heading(start, heading);
        let old_tail = snake.move_forward_with_wrapping(w, h);
        assert_eq!(old_tail, start);
        assert_eq!(snake.head(), expected);
        assert_eq!(snake.len(), 1);
    }
}

#[test]
fn wrapping_move_inside_the_board_is_a_plain_step() {
    let cases = [
        (Direction::Up, Position::new(3, 1)),
        (Direction::Down, Position::new(3, 3)),
        (Direction::Left, Position::new(2, 2)),
        (Direction::Right, Position::new(4, 2)),
    ];
    for (heading, expected) in cases {
        let mut snake = snake_heading(Position::new(3, 2), heading);
        snake.move_forward_with_wrapping(7, 5);
        assert_eq!(snake.head(), expected);
    }
}

#[test]
fn wrapping_move_on_a_single_cell_board_stays() {
    for heading in ALL_DIRECTIONS {
        let mut snake = snake_heading(Position::new(0, 0), heading);
        snake.move_forward_with_wrapping(1, 1);
        assert_eq!(snake.head(), Position::new(0, 0));
    }
}

#[test]
fn wrapping_move_from_beyond_the_board_comes_back() {
    let mut right = snake_heading(Position::new(9, 1), Direction::Right);
    right.move_forward_with_wrapping(5, 5);
    assert_eq!(right.head(), Position::new(0, 1));

    let mut down = snake_heading(Position::new(1, 9), Direction::Down);
    down.move_forward_with_wrapping(5, 5);
    assert_eq!(down.head(), Position::new(1, 0));
}

#[test]
fn grow_appends_behind_the_tail() {
    let mut snake = Snake::new(Position::new(3, 3));
    let old_tail = snake.move_forward();
    snake.grow(old_tail);
    assert_eq!(segments(&snake), vec![Position::new(4, 3), Position::new(3, 3)]);
    assert_eq!(snake.head(), Position::new(4, 3));
    assert_eq!(snake.len(), 2);
}

#[test]
fn self_collision_needs_a_segment_on_the_head() {
    let mut snake = Snake::new(Position::new(2, 2));
    assert!(!snake.check_self_collision());
    snake.grow(Position::new(1, 2));
    snake.grow(Position::new(0, 2));
    assert!(!snake.check_self_collision());
    snake.grow(Position::new(2, 2));
    assert!(snake.check_self_collision());
}

#[test]
fn self_collision_after_running_into_the_body() {
    // [(5,5), (6,5), (7,5)] heading right: the head steps onto (6,5),
    // which the last segment takes at the same time.
    let mut snake = Snake::new(Position::new(5, 5));
    snake.grow(Position::new(6, 5));
    snake.grow(Position::new(7, 5));
    snake.move_forward();
    assert_eq!(
        segments(&snake),
        vec![Position::new(6, 5), Position::new(5, 5), Position::new(6, 5)]
    );
    assert!(snake.check_self_collision());
}

#[test]
fn occupies_finds_every_segment() {
    let mut snake = Snake::new(Position::new(2, 2));
    snake.grow(Position::new(1, 2));
    assert!(snake.occupies(Position::new(2, 2)));
    assert!(snake.occupies(Position::new(1, 2)));
    assert!(!snake.occupies(Position::new(0, 2)));
    assert!(!snake.occupies(Position::new(2, 1)));
}

#[test]
fn len_counts_segments() {
    let mut snake = Snake::new(Position::new(0, 0));
    for n in 1..6u16 {
        assert_eq!(snake.len(), n as usize);
        snake.grow(Position::new(n, 0));
    }
    assert!(!snake.is_empty());
}
