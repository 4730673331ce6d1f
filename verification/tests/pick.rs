use pop_the_lock::trigger::{random_direction, Direction, PickEvent, Trigger, PICK_SPEED, SPEED_STEP};
use pop_the_lock::utils::{allowed_quadrants, choose_quadrant, get_point_star, get_safe_dot_quadrant, random_choice};

#[test]
fn negate_twice_is_identity() {
    let mut d = Direction(1);
    d.negate();
    assert_eq!(d, Direction(-1));
    d.negate();
    assert_eq!(d, Direction(1));
}

#[test]
fn random_direction_is_a_unit() {
    let mut seen_pos = false;
    let mut seen_neg = false;
    for _ in 0..200 {
        let d = random_direction();
        assert!(d.0 == 1 || d.0 == -1);
        seen_pos |= d.0 == 1;
        seen_neg |= d.0 == -1;
    }
    assert!(seen_pos && seen_neg);
}

#[test]
fn fresh_pick() {
    let t = Trigger::spawn();
    assert_eq!(t.speed, PICK_SPEED);
    assert!(!t.inside_dot && !t.exited_dot && !t.clicked_during_overlap);
    let t = Trigger::new(Direction(-1));
    assert_eq!(t.direction, Direction(-1));
}

#[test]
fn silent_exit_is_a_miss() {
    let mut t = Trigger::new(Direction(1));
    t.update_overlap(true);
    assert!(t.inside_dot);
    t.update_overlap(false);
    assert!(t.exited_dot);
    assert_eq!(t.check_input(false, false), PickEvent::Missed);
    assert!(!t.exited_dot);
    assert_eq!(t.check_input(false, false), PickEvent::Nothing);
}

#[test]
fn click_inside_is_a_hit() {
    let mut t = Trigger::new(Direction(1));
    t.update_overlap(true);
    let e = t.check_input(true, true);
    assert_eq!(e, PickEvent::Hit { should_score: true });
    assert_eq!(t.direction, Direction(-1));
    assert_eq!(t.speed, PICK_SPEED + SPEED_STEP);
    assert!(!t.inside_dot);
    assert!(t.clicked_during_overlap);
    // the pick moves on: no miss is pending
    t.update_overlap(false);
    assert!(!t.exited_dot);
    assert_eq!(t.check_input(false, false), PickEvent::Nothing);
}

#[test]
fn click_after_overlap_left_clears_flag() {
    let mut t = Trigger::new(Direction(1));
    t.update_overlap(true);
    t.clicked_during_overlap = true;
    t.update_overlap(false);
    assert!(!t.exited_dot);
    assert!(!t.clicked_during_overlap);
}

#[test]
fn click_outside_is_a_miss() {
    let mut t = Trigger::new(Direction(-1));
    assert_eq!(t.check_input(true, false), PickEvent::Missed);
    assert_eq!(t.direction, Direction(-1));
    assert_eq!(t.speed, PICK_SPEED);
}

#[test]
fn no_press_is_nothing() {
    let mut t = Trigger::new(Direction(-1));
    t.update_overlap(true);
    assert_eq!(t.check_input(false, true), PickEvent::Nothing);
    assert!(t.inside_dot);
}

#[test]
fn speed_saturates() {
    let mut t = Trigger::new(Direction(1));
    t.speed = u32::MAX - 5;
    t.update_overlap(true);
    t.check_input(true, false);
    assert_eq!(t.speed, u32::MAX);
}

#[test]
fn opposite_quadrant_table() {
    assert_eq!(allowed_quadrants(0, true), (3, 2));
    assert_eq!(allowed_quadrants(1, true), (0, 3));
    assert_eq!(allowed_quadrants(2, true), (0, 1));
    assert_eq!(allowed_quadrants(3, true), (1, 2));
    assert_eq!(allowed_quadrants(0, false), (1, 2));
    assert_eq!(allowed_quadrants(1, false), (2, 3));
    assert_eq!(allowed_quadrants(2, false), (0, 3));
    assert_eq!(allowed_quadrants(3, false), (0, 1));
    assert_eq!(choose_quadrant(2, true, false), 0);
    assert_eq!(choose_quadrant(2, true, true), 1);
}

#[test]
fn safe_quadrant_is_two_or_three_ahead() {
    for q in 0..4usize {
        for d in [1i32, -1] {
            for _ in 0..20 {
                let r = get_safe_dot_quadrant(q, d);
                let ahead = if d > 0 { (r + 4 - q) % 4 } else { (q + 4 - r) % 4 };
                assert!(ahead == 2 || ahead == 3, "q={q} d={d} r={r}");
            }
        }
    }
}

#[test]
fn random_choice_picks_an_element() {
    let items = vec![3, 5, 8];
    for _ in 0..50 {
        let x = *random_choice(&items);
        assert!(items.contains(&x));
    }
    let single = [42];
    assert_eq!(*random_choice(&single), 42);
    let _ = get_point_star();
}
