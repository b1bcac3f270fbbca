use snake_game::snake::{Block, Direction, Snake};

#[test]
fn new_snake_shape() {
    let snake = Snake::new(2, 2);
    assert_eq!(snake.head_position(), (4, 2));
    assert_eq!(snake.head_direction(), Direction::Right);
    assert_eq!(
        snake.body().clone(),
        vec![Block { x: 4, y: 2 }, Block { x: 3, y: 2 }, Block { x: 2, y: 2 }]
    );
}

#[test]
fn next_head_lookahead() {
    let snake = Snake::new(2, 2);
    assert_eq!(snake.next_head(None), (5, 2));
    assert_eq!(snake.next_head(Some(Direction::Up)), (4, 1));
    assert_eq!(snake.next_head(Some(Direction::Down)), (4, 3));
    assert_eq!(snake.next_head(Some(Direction::Left)), (3, 2));
    // lookahead must not move anything
    assert_eq!(snake.head_position(), (4, 2));
}

#[test]
fn move_forward_keeps_length() {
    let mut snake = Snake::new(2, 2);
    snake.move_forward(None);
    assert_eq!(snake.head_position(), (5, 2));
    assert_eq!(
        snake.body().clone(),
        vec![Block { x: 5, y: 2 }, Block { x: 4, y: 2 }, Block { x: 3, y: 2 }]
    );
    snake.move_forward(Some(Direction::Down));
    assert_eq!(snake.head_position(), (5, 3));
    assert_eq!(snake.head_direction(), Direction::Down);
    assert_eq!(snake.body().len(), 3);
}

#[test]
fn restore_tail_regrows_removed_cell() {
    let mut snake = Snake::new(2, 2);
    snake.move_forward(None);
    // (2, 2) was removed and remembered by the move
    snake.restore_tail();
    assert_eq!(
        snake.body().clone(),
        vec![
            Block { x: 5, y: 2 },
            Block { x: 4, y: 2 },
            Block { x: 3, y: 2 },
            Block { x: 2, y: 2 }
        ]
    );
}

#[test]
fn restore_tail_reuses_remembered_cell() {
    let mut snake = Snake::new(2, 2);
    snake.move_forward(None);
    // without another move in between, the same remembered cell is appended
    // again each time
    snake.restore_tail();
    snake.restore_tail();
    let cells = snake.body().clone();
    assert_eq!(cells.len(), 5);
    assert_eq!(cells[3], Block { x: 2, y: 2 });
    assert_eq!(cells[4], Block { x: 2, y: 2 });
}

#[test]
fn restore_tail_without_move_does_nothing() {
    let mut snake = Snake::new(2, 2);
    snake.restore_tail();
    assert_eq!(snake.body().len(), 3);
}

#[test]
fn overlap_tail_excludes_head() {
    let snake = Snake::new(2, 2);
    assert!(!snake.overlap_tail(4, 2)); // the head itself does not count
    assert!(snake.overlap_tail(3, 2));
    assert!(snake.overlap_tail(2, 2));
    assert!(!snake.overlap_tail(5, 2));
    assert!(!snake.overlap_tail(3, 3));
}

#[test]
fn opposite_direction_pairs() {
    assert_eq!(Direction::Up.opposite(), Direction::Down);
    assert_eq!(Direction::Down.opposite(), Direction::Up);
    assert_eq!(Direction::Left.opposite(), Direction::Right);
    assert_eq!(Direction::Right.opposite(), Direction::Left);
}

#[test]
fn opposite_is_involution() {
    for d in [Direction::Up, Direction::Down, Direction::Left, Direction::Right] {
        assert_eq!(d.opposite().opposite(), d);
        assert_ne!(d.opposite(), d);
    }
}
