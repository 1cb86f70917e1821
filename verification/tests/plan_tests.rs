use aion_server::mouse_algorithms::calculate_smooth_movement;

#[test]
fn test_plan_length_matches_steps() {
    for steps in [1usize, 2, 5, 20, 137] {
        let plan = calculate_smooth_movement(3, -4, 90, 1000, steps);
        assert_eq!(plan.len(), steps);
    }
}

#[test]
fn test_plan_zero_displacement_is_fixed_point() {
    let plan = calculate_smooth_movement(42, -17, 42, -17, 8);
    for point in &plan {
        assert_eq!(*point, (42, -17));
    }
}

#[test]
fn test_plan_first_point_is_start() {
    assert_eq!(calculate_smooth_movement(0, 0, 100, 100, 10)[0], (0, 0));
    assert_eq!(calculate_smooth_movement(-5, 9, 100, -200, 3)[0], (-5, 9));
    assert_eq!(calculate_smooth_movement(2147483647, -2147483648, 0, 0, 4)[0], (2147483647, -2147483648));
}

#[test]
fn test_plan_strictly_decreasing_toward_origin() {
    let plan = calculate_smooth_movement(100, 100, 0, 0, 5);
    assert_eq!(plan, vec![(100, 100), (80, 80), (60, 60), (40, 40), (20, 20)]);
    for w in plan.windows(2) {
        assert!(w[1].0 < w[0].0);
        assert!(w[1].1 < w[0].1);
    }
}

#[test]
fn test_plan_interior_truncation() {
    // truncation toward zero on the last generated interior step; the
    // final snap to the exact target happens outside the plan
    let plan = calculate_smooth_movement(0, 0, 100, 100, 10);
    assert_eq!(plan[9], (90, 90));
    let plan = calculate_smooth_movement(0, 0, 7, 7, 10);
    assert_eq!(plan[9], (6, 6));
    let plan = calculate_smooth_movement(0, 0, -7, -7, 10);
    assert_eq!(plan[9], (-6, -6));
}

#[test]
fn test_plan_extreme_coordinates() {
    let plan = calculate_smooth_movement(-2147483648, 2147483647, 2147483647, -2147483648, 20);
    assert_eq!(plan.len(), 20);
    assert_eq!(plan[0], (-2147483648, 2147483647));
    for w in plan.windows(2) {
        assert!(w[1].0 >= w[0].0);
        assert!(w[1].1 <= w[0].1);
    }
}
