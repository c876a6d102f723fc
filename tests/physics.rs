use flappy::obstacle::Obstacle;
use flappy::player::Player;

#[test]
fn gravity_adds_two_tenths_below_cap() {
    let mut p = Player::new(5, 25);
    p.move_and_gravity();
    assert_eq!(p.velocity, 2);
    assert_eq!(p.x, 6);
    let mut q = Player { x: 0, y: 10, velocity: 18 };
    q.move_and_gravity();
    assert_eq!(q.velocity, 20);
    assert_eq!(q.y, 12);
    q.move_and_gravity();
    assert_eq!(q.velocity, 20);
    assert_eq!(q.y, 14);
}

#[test]
fn velocity_never_exceeds_cap() {
    let mut p = Player { x: 0, y: 0, velocity: -20 };
    for _ in 0..40 {
        p.y = 0;
        p.move_and_gravity();
        assert!(p.velocity <= 20);
    }
    assert_eq!(p.velocity, 20);
}

#[test]
fn flap_overrides_velocity() {
    let mut p = Player { x: 3, y: 30, velocity: 20 };
    p.flap();
    assert_eq!(p, Player { x: 3, y: 30, velocity: -20 });
    let mut q = Player::new(1, 2);
    q.flap();
    assert_eq!(q.velocity, -20);
}

#[test]
fn upward_move_truncates_toward_zero() {
    let mut p = Player { x: 0, y: 10, velocity: -20 };
    p.move_and_gravity();
    assert_eq!(p.velocity, -18);
    assert_eq!(p.y, 9);
    let mut q = Player { x: 0, y: 10, velocity: -12 };
    q.move_and_gravity();
    assert_eq!(q.velocity, -10);
    assert_eq!(q.y, 9);
    let mut r = Player { x: 0, y: 10, velocity: -10 };
    r.move_and_gravity();
    assert_eq!(r.y, 10);
}

#[test]
fn height_clamped_at_top() {
    let mut p = Player { x: 0, y: 1, velocity: -20 };
    for i in 0..30 {
        if i % 3 == 0 {
            p.flap();
        }
        p.move_and_gravity();
        assert!(p.y >= 0);
    }
    let mut q = Player { x: 0, y: 0, velocity: -20 };
    q.move_and_gravity();
    assert_eq!(q.y, 0);
}

#[test]
fn gap_size_shrinks_with_score_to_floor() {
    assert_eq!(Obstacle::with_gap(0, 20, 0).size, 20);
    assert_eq!(Obstacle::with_gap(0, 20, 5).size, 15);
    assert_eq!(Obstacle::with_gap(0, 20, 17).size, 3);
    assert_eq!(Obstacle::with_gap(0, 20, 18).size, 2);
    assert_eq!(Obstacle::with_gap(0, 20, 19).size, 2);
    assert_eq!(Obstacle::with_gap(0, 20, 1000).size, 2);
}

#[test]
fn random_gap_stays_in_range() {
    let mut seen_other = false;
    let first = Obstacle::new(7, 3);
    for _ in 0..200 {
        let o = Obstacle::new(7, 3);
        assert_eq!(o.x, 7);
        assert_eq!(o.size, 17);
        assert!(o.gap_y >= 10 && o.gap_y < 40);
        if o.gap_y != first.gap_y {
            seen_other = true;
        }
    }
    assert!(seen_other);
}

#[test]
fn collision_outside_gap_only() {
    let o = Obstacle::with_gap(10, 25, 3);
    assert_eq!(o.size, 17);
    let at = |y: i32| Player { x: 10, y, velocity: 0 };
    assert!(o.collision(&at(16)));
    assert!(!o.collision(&at(17)));
    assert!(!o.collision(&at(25)));
    assert!(!o.collision(&at(33)));
    assert!(o.collision(&at(34)));
    assert!(o.collision(&at(0)));
    assert!(!o.collision(&Player { x: 11, y: 0, velocity: 0 }));
    assert!(!o.collision(&Player { x: 9, y: 49, velocity: 0 }));
}

#[test]
fn wall_rows_leave_the_gap() {
    let o = Obstacle::with_gap(0, 25, 0);
    let rows = o.wall_rows();
    let expected: Vec<i32> = (0..15).chain(35..50).collect();
    assert_eq!(rows, expected);
    let narrow = Obstacle::with_gap(0, 10, 17);
    assert_eq!(narrow.size, 3);
    let rows = narrow.wall_rows();
    let expected: Vec<i32> = (0..9).chain(11..50).collect();
    assert_eq!(rows, expected);
}

#[test]
fn screen_column_is_relative_to_player() {
    let o = Obstacle::with_gap(85, 20, 0);
    assert_eq!(o.screen_x(5), 80);
    assert_eq!(o.screen_x(86), -1);
}
