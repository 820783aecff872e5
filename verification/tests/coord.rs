use collision_detection::coord::Coord;

#[test]
fn test_unit_steps() {
    let mut c = Coord::new(3, 4);
    c.move_left(1);
    assert_eq!(c, Coord::new(2, 4));
    c.move_right(1);
    assert_eq!(c, Coord::new(3, 4));
    c.move_up(1);
    assert_eq!(c, Coord::new(3, 5));
    c.move_down(1);
    assert_eq!(c, Coord::new(3, 4));
}

#[test]
fn test_distances_are_absolute() {
    let a = Coord::new(-3, 7);
    let b = Coord::new(4, 2);
    assert_eq!(Coord::get_x_distance(&a, &b), 7);
    assert_eq!(Coord::get_x_distance(&b, &a), 7);
    assert_eq!(Coord::get_y_distance(&a, &b), 5);
    assert_eq!(Coord::get_y_distance(&b, &a), 5);
}

#[test]
fn test_move_toward_steps_each_axis() {
    let target = Coord::new(2, -2);
    let mut c = Coord::new(0, 0);
    c.move_toward(&target);
    assert_eq!(c, Coord::new(1, -1));
    c.move_toward(&target);
    assert_eq!(c, Coord::new(2, -2));
    c.move_toward(&target);
    assert_eq!(c, Coord::new(2, -2));
}

#[test]
fn test_compare_is_exact_equality() {
    let a = Coord::new(5, 5);
    assert!(a.compare(&Coord::new(5, 5)));
    assert!(!a.compare(&Coord::new(5, 6)));
    assert!(!a.compare(&Coord::new(6, 5)));
}

#[test]
fn test_randomize_stays_in_centred_range() {
    for _ in 0..50 {
        let c = Coord::randomize(10, 4);
        assert!(-5 <= c.x && c.x <= 5);
        assert!(-2 <= c.y && c.y <= 2);
    }
    let pinned = Coord::randomize(0, 0);
    assert_eq!(pinned, Coord::new(0, 0));
}
