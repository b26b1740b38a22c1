use particles_editor::curve::{
    add_knot, find_hit, knot_hovered, pointer_in_plot, pointer_t, pointer_value, sort_by_x,
    update_curve, Knot, Pointer,
};

fn knot(x: u32, value: u32) -> Knot {
    Knot { x, value }
}

fn press(dx: i64, dy: i64) -> Pointer {
    Pointer { dx, dy, down: true }
}

#[test]
fn pointer_t_maps_and_clamps() {
    assert_eq!(pointer_t(100_000), 500_000);
    assert_eq!(pointer_t(44_000), 220_000);
    assert_eq!(pointer_t(0), 0);
    assert_eq!(pointer_t(-5), 0);
    assert_eq!(pointer_t(200_000), 1_000_000);
    assert_eq!(pointer_t(300_000), 1_000_000);
    assert_eq!(pointer_t(1), 5);
}

#[test]
fn pointer_value_maps_inverted_and_clamps() {
    assert_eq!(pointer_value(12_500), 1_500_000);
    assert_eq!(pointer_value(25_000), 1_000_000);
    assert_eq!(pointer_value(0), 2_000_000);
    assert_eq!(pointer_value(-100), 2_000_000);
    assert_eq!(pointer_value(50_000), 0);
    assert_eq!(pointer_value(60_000), 0);
}

#[test]
fn plot_bounds_include_edges() {
    assert!(pointer_in_plot(press(0, 0)));
    assert!(pointer_in_plot(press(200_000, 50_000)));
    assert!(!pointer_in_plot(press(-1, 10)));
    assert!(!pointer_in_plot(press(10, 50_001)));
}

#[test]
fn hover_uses_strict_tolerance() {
    assert!(knot_hovered(200_000, 299_999));
    assert!(!knot_hovered(200_000, 300_000));
    assert!(knot_hovered(200_000, 100_001));
    assert!(!knot_hovered(200_000, 100_000));
}

#[test]
fn find_hit_takes_first_in_order() {
    let knots = vec![knot(0, 0), knot(250_000, 0), knot(200_000, 0)];
    assert_eq!(find_hit(&knots, 220_000), Some(1));
    assert_eq!(find_hit(&knots, 600_000), None);
}

#[test]
fn press_between_knots_inserts_sorted() {
    let mut knots = vec![knot(0, 1_000_000), knot(1_000_000, 1_000_000)];
    let mut lock: Option<usize> = None;
    update_curve(&mut knots, &mut lock, press(100_000, 12_500));
    assert_eq!(
        knots,
        vec![knot(0, 1_000_000), knot(500_000, 1_500_000), knot(1_000_000, 1_000_000)]
    );
    assert_eq!(lock, None);
}

#[test]
fn press_near_knot_locks_it() {
    let mut knots = vec![knot(0, 1_000_000), knot(200_000, 1_200_000), knot(1_000_000, 1_000_000)];
    let mut lock: Option<usize> = None;
    update_curve(&mut knots, &mut lock, press(44_000, 25_000));
    assert_eq!(lock, Some(1));
    assert_eq!(knots.len(), 3);
    assert_eq!(knots[1], knot(200_000, 1_000_000));
}

#[test]
fn release_then_press_hit_tests_afresh() {
    let mut knots = vec![knot(0, 1_000_000), knot(200_000, 1_200_000), knot(1_000_000, 1_000_000)];
    let mut lock: Option<usize> = None;
    update_curve(&mut knots, &mut lock, press(44_000, 25_000));
    assert_eq!(lock, Some(1));
    update_curve(&mut knots, &mut lock, Pointer { dx: 44_000, dy: 25_000, down: false });
    assert_eq!(lock, None);
    update_curve(&mut knots, &mut lock, press(44_000, 25_000));
    assert_eq!(lock, Some(1));
    assert_eq!(knots[1].x, 200_000);
}

#[test]
fn locked_knot_follows_pointer_without_resort() {
    let mut knots = vec![knot(0, 1_000_000), knot(200_000, 1_200_000), knot(500_000, 1_000_000)];
    let mut lock: Option<usize> = Some(1);
    update_curve(&mut knots, &mut lock, press(300_000, -40));
    assert_eq!(lock, Some(1));
    assert_eq!(
        knots,
        vec![knot(0, 1_000_000), knot(1_000_000, 2_000_000), knot(500_000, 1_000_000)]
    );
}

#[test]
fn press_outside_plot_changes_nothing() {
    let mut knots = vec![knot(0, 1_000_000), knot(1_000_000, 1_000_000)];
    let mut lock: Option<usize> = None;
    update_curve(&mut knots, &mut lock, press(100_000, 60_000));
    assert_eq!(knots, vec![knot(0, 1_000_000), knot(1_000_000, 1_000_000)]);
    assert_eq!(lock, None);
}

#[test]
fn stale_lock_is_dropped() {
    let mut knots = vec![knot(0, 1_000_000), knot(1_000_000, 1_000_000)];
    let mut lock: Option<usize> = Some(7);
    update_curve(&mut knots, &mut lock, press(100_000, 12_500));
    assert_eq!(knots.len(), 3);
    assert_eq!(lock, None);
}

#[test]
fn insertion_resorts_a_dragged_curve() {
    let mut knots = vec![knot(500_000, 1), knot(100_000, 2)];
    add_knot(&mut knots, knot(900_000, 3));
    assert_eq!(knots, vec![knot(100_000, 2), knot(500_000, 1), knot(900_000, 3)]);
}

#[test]
fn insertion_goes_after_equal_x() {
    let mut knots = vec![knot(0, 1), knot(500_000, 2), knot(1_000_000, 3)];
    add_knot(&mut knots, knot(500_000, 9));
    assert_eq!(
        knots,
        vec![knot(0, 1), knot(500_000, 2), knot(500_000, 9), knot(1_000_000, 3)]
    );
}

#[test]
fn sort_is_stable_and_keeps_sorted_input() {
    let unsorted = vec![knot(300, 1), knot(100, 2), knot(300, 3), knot(0, 4)];
    assert_eq!(
        sort_by_x(&unsorted),
        vec![knot(0, 4), knot(100, 2), knot(300, 1), knot(300, 3)]
    );
    let sorted = vec![knot(0, 5), knot(0, 4), knot(7, 1)];
    assert_eq!(sort_by_x(&sorted), sorted);
    assert_eq!(sort_by_x(&Vec::new()), Vec::<Knot>::new());
}
