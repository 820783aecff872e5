use collision_detection::check_collisions;
use collision_detection::coord::Coord;
use collision_detection::game::Direction;
use collision_detection::snake::{Snake, SnakeBody};
use collision_detection::walls::Walls;
use collision_detection::Collidable;

fn manhattan(a: &Coord, b: &Coord) -> i64 {
    (a.x - b.x).abs() + (a.y - b.y).abs()
}

#[test]
fn test_tail_contraction_converges() {
    // A single-corner path at (0, 0) with the head far away at (20, 0) and
    // a target length of 12: every tail move shrinks the distance by one
    // until it reaches 12, then the tail stops; it never passes the head.
    let mut body = SnakeBody::new();
    let head = Coord::new(20, 0);

    let mut last_distance = manhattan(&body.get_border()[0], &head);
    assert_eq!(last_distance, 20);
    for _ in 0..8 {
        body.move_tail(&head, 12);
        let border = body.get_border();
        assert_eq!(border.len(), 1);
        let distance = manhattan(&border[0], &head);
        assert!(distance < last_distance);
        assert!(border[0].x <= head.x);
        last_distance = distance;
    }
    assert_eq!(last_distance, 12);
    assert_eq!(body.get_border()[0], Coord::new(8, 0));

    // Within the target length the tail no longer moves.
    for _ in 0..5 {
        body.move_tail(&head, 12);
        assert_eq!(body.get_border()[0], Coord::new(8, 0));
    }
}

#[test]
fn test_diagonal_tail_step_never_overshoots() {
    let mut body = SnakeBody::new();
    let head = Coord::new(3, 2);

    // Distance 5 with target length 0: the tail steps diagonally while
    // both axes differ and never crosses the head on either axis.
    let mut steps = 0;
    while manhattan(&body.get_border()[0], &head) > 0 {
        body.move_tail(&head, 0);
        let tail = body.get_border()[0];
        assert!(tail.x <= head.x && tail.y <= head.y);
        steps += 1;
        assert!(steps <= 5);
    }
    assert_eq!(body.get_border()[0], head);
}

#[test]
fn test_corner_collapse_drops_oldest_corner() {
    // Turning up pivots at (12, 0): the pivot is recorded as a new corner
    // and the tail starts catching up to it; on exact arrival the corner
    // list shrinks back to a single corner.
    let mut snake = Snake::new();
    snake.change_direction(Direction::Up);

    let border = snake.body.get_border();
    assert_eq!(border.len(), 2);
    assert_eq!(border[0], Coord::new(1, 0));
    assert_eq!(border[1], Coord::new(12, 0));

    for tick in 1..=10 {
        snake.move_snake();
        let border = snake.body.get_border();
        assert_eq!(border.len(), 2);
        assert_eq!(border[0], Coord::new(1 + tick, 0));
    }

    snake.move_snake();
    let border = snake.body.get_border();
    assert_eq!(border.len(), 1);
    assert_eq!(border[0], Coord::new(12, 0));
}

#[test]
fn test_straight_path_has_no_self_collision() {
    let mut snake = Snake::new();
    for _ in 0..5 {
        snake.move_snake();
        let head_border = snake.head.get_border();
        let body_border = snake.body.get_border();
        assert_eq!(check_collisions(&head_border, &body_border), false);
    }
}

#[test]
fn test_five_ticks_right_end_to_end() {
    // Arena 40x20; the snake starts with its head at (12, 0), a single
    // tail corner at (0, 0) and total length 12. The distance is exactly
    // 12, so the first head step makes it 13 and the tail must follow:
    // after each tick the tail has advanced one step and the distance is
    // back to 12.
    let mut snake = Snake::new();
    let walls = Walls::new(40, 20);

    assert_eq!(snake.total_length, 12);
    assert_eq!(snake.head.coord, Coord::new(12, 0));
    assert_eq!(snake.body.get_border(), vec![Coord::new(0, 0)]);

    for tick in 1..=5 {
        snake.move_snake();
        assert_eq!(snake.head.coord, Coord::new(12 + tick, 0));
        let border = snake.body.get_border();
        assert_eq!(border.len(), 1);
        assert_eq!(border[0], Coord::new(tick, 0));
        assert_eq!(manhattan(&border[0], &snake.head.coord), 12);

        assert_eq!(
            check_collisions(&snake.head.get_border(), &snake.body.get_border()),
            false
        );
        assert_eq!(
            check_collisions(&snake.head.get_border(), &walls.get_border()),
            false
        );
    }
    assert_eq!(snake.head.coord, Coord::new(17, 0));
}

#[test]
fn test_grow_lengthens_target() {
    let mut snake = Snake::new();
    snake.grow();
    snake.grow();
    assert_eq!(snake.total_length, 14);

    // With the target length raised to 14 the tail lags two steps further.
    snake.move_snake();
    snake.move_snake();
    assert_eq!(snake.head.coord, Coord::new(14, 0));
    assert_eq!(snake.body.get_border()[0], Coord::new(0, 0));
    snake.move_snake();
    assert_eq!(snake.body.get_border()[0], Coord::new(1, 0));
}

#[test]
fn test_head_hits_wall_border() {
    let mut snake = Snake::new();
    let walls = Walls::new(40, 20);

    // Walk right until the head stands on the wall at x = 20.
    for _ in 0..7 {
        snake.move_snake();
        assert_eq!(
            check_collisions(&snake.head.get_border(), &walls.get_border()),
            false
        );
    }
    snake.move_snake();
    assert_eq!(snake.head.coord, Coord::new(20, 0));
    assert_eq!(
        check_collisions(&snake.head.get_border(), &walls.get_border()),
        true
    );
}
