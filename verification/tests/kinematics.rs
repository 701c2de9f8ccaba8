use manipulator3d::geometry::{integer_sqrt, Point};
use manipulator3d::robot::{IKResult, IkError, JointSolution, LinkParams, RobotArm};
use manipulator3d::text::decimal;

fn arm() -> RobotArm {
    let l1 = LinkParams { length_um: 3_000_000, mass_g: 2000, ..LinkParams::default() };
    let l2 = LinkParams { length_um: 2_600_000, mass_g: 1600, ..LinkParams::default() };
    RobotArm::new(l1, l2)
}

fn norm_sq(p: Point) -> i128 {
    let (x, y, z) = (p.x as i128, p.y as i128, p.z as i128);
    x * x + y * y + z * z
}

#[test]
fn reach_bounds_follow_link_lengths() {
    let a = arm();
    assert_eq!(a.l1(), 3_000_000);
    assert_eq!(a.l2(), 2_600_000);
    assert_eq!(a.max_reach(), 5_600_000);
    assert_eq!(a.min_reach(), 400_000);
}

#[test]
fn min_reach_is_symmetric_in_the_links() {
    let short = LinkParams { length_um: 1_000, ..LinkParams::default() };
    let long = LinkParams { length_um: 7_000, ..LinkParams::default() };
    assert_eq!(RobotArm::new(short, long).min_reach(), 6_000);
    assert_eq!(RobotArm::new(long, short).min_reach(), 6_000);
    assert_eq!(RobotArm::new(long, long).min_reach(), 0);
}

#[test]
fn link_defaults() {
    let l = LinkParams::default();
    assert_eq!(l.length_um, 2_500_000);
    assert_eq!(l.mass_g, 1000);
    assert_eq!(l.inertia_cm, 0);
    assert_eq!(l.inertia_joint, 0);
}

#[test]
fn inertia_of_a_uniform_rod() {
    let mut l = LinkParams { length_um: 3_000_000, mass_g: 2000, ..LinkParams::default() };
    l.recompute_inertia();
    assert_eq!(l.inertia_cm, 1_500_000_000_000_000);
    assert_eq!(l.inertia_joint, 6_000_000_000_000_000);
    assert_eq!(l.length_um, 3_000_000);
    assert_eq!(l.mass_g, 2000);
}

#[test]
fn inertia_is_rounded_down() {
    let mut l = LinkParams { length_um: 2_600_000, mass_g: 1600, ..LinkParams::default() };
    l.recompute_inertia();
    assert_eq!(l.inertia_cm, 901_333_333_333_333);
    assert_eq!(l.inertia_joint, 3_605_333_333_333_333);
}

#[test]
fn inertia_of_the_largest_link_does_not_overflow() {
    let mut l = LinkParams { length_um: u32::MAX, mass_g: u32::MAX, ..LinkParams::default() };
    l.recompute_inertia();
    let rod = (u32::MAX as u128) * (u32::MAX as u128) * (u32::MAX as u128);
    assert_eq!(l.inertia_cm, rod / 12);
    assert_eq!(l.inertia_joint, rod / 3);
}

#[test]
fn arm_keeps_links_with_inertia() {
    let a = arm();
    assert_eq!(a.link1().length_um, 3_000_000);
    assert_eq!(a.link1().mass_g, 2000);
    assert_eq!(a.link1().inertia_joint, 6_000_000_000_000_000);
    assert_eq!(a.link2().inertia_cm, 901_333_333_333_333);
}

#[test]
fn negative_z_is_invalid_target() {
    let r = arm().solve_ik(Point::new(1_000_000, 1_000_000, -1), false);
    assert!(!r.reachable);
    assert_eq!(r.error, Some(IkError::InvalidTarget));
    assert_eq!(r.q, JointSolution::default());
    assert_eq!(r.message(), "Invalid target: z must be >= 0");
}

#[test]
fn negative_z_is_refused_before_the_distance_is_looked_at() {
    let r = arm().solve_ik(Point::new(10_000_000, 10_000_000, -10_000_000), true);
    assert_eq!(r.error, Some(IkError::InvalidTarget));
}

#[test]
fn every_negative_z_is_refused() {
    let a = arm();
    let mut seed: u64 = 0x9e37_79b9_7f4a_7c15;
    for _ in 0..2000 {
        seed = seed.wrapping_mul(6364136223846793005).wrapping_add(1442695040888963407);
        let x = (seed >> 33) as i32 % 6_000_000;
        seed = seed.wrapping_mul(6364136223846793005).wrapping_add(1442695040888963407);
        let y = (seed >> 33) as i32 % 6_000_000;
        seed = seed.wrapping_mul(6364136223846793005).wrapping_add(1442695040888963407);
        let z = -1 - ((seed >> 33) as i32 % 6_000_000);
        let r = a.solve_ik(Point::new(x, y, z), false);
        assert!(!r.reachable);
        assert_eq!(r.error, Some(IkError::InvalidTarget));
    }
}

#[test]
fn too_far_is_out_of_workspace() {
    let r = arm().solve_ik(Point::new(10_000_000, 10_000_000, 10_000_000), false);
    assert!(!r.reachable);
    assert_eq!(
        r.error,
        Some(IkError::OutOfWorkspace {
            radius: 17_320_509,
            min_reach: 400_000,
            max_reach: 5_600_000
        })
    );
    assert_eq!(
        r.message(),
        "Target radius |p|=17320509 um is outside [400000 um, 5600000 um]"
    );
}

#[test]
fn too_near_is_out_of_workspace() {
    let r = arm().solve_ik(Point::new(100_000, 0, 0), false);
    assert!(!r.reachable);
    assert_eq!(
        r.error,
        Some(IkError::OutOfWorkspace { radius: 100_000, min_reach: 400_000, max_reach: 5_600_000 })
    );
}

#[test]
fn too_near_radius_is_rounded_down() {
    // |p|^2 = 399_998^2 + 1, just above a whole number of micrometres
    let r = arm().solve_ik(Point::new(399_998, 1, 0), false);
    assert_eq!(
        r.error,
        Some(IkError::OutOfWorkspace { radius: 399_998, min_reach: 400_000, max_reach: 5_600_000 })
    );
}

#[test]
fn too_far_radius_is_rounded_up() {
    let r = arm().solve_ik(Point::new(5_600_000, 200, 0), false);
    assert_eq!(
        r.error,
        Some(IkError::OutOfWorkspace {
            radius: 5_600_001,
            min_reach: 400_000,
            max_reach: 5_600_000
        })
    );
}

#[test]
fn too_far_radius_that_is_whole_stays() {
    let r = arm().solve_ik(Point::new(0, 0, 6_000_000), false);
    assert_eq!(
        r.error,
        Some(IkError::OutOfWorkspace {
            radius: 6_000_000,
            min_reach: 400_000,
            max_reach: 5_600_000
        })
    );
}

#[test]
fn origin_is_out_of_reach_of_unequal_links() {
    let r = arm().solve_ik(Point::zero(), false);
    assert!(!r.reachable);
    assert_eq!(
        r.error,
        Some(IkError::OutOfWorkspace { radius: 0, min_reach: 400_000, max_reach: 5_600_000 })
    );
}

#[test]
fn origin_is_reached_by_equal_links_folded() {
    let l = LinkParams { length_um: 1_000_000, ..LinkParams::default() };
    let a = RobotArm::new(l, l);
    let r = a.solve_ik(Point::zero(), false);
    assert!(r.reachable);
    assert!(r.q.on_axis);
    assert_eq!(r.q.cos_elbow_num, -2_000_000_000_000);
    assert_eq!(r.q.cos_elbow_den, 2_000_000_000_000);
}

#[test]
fn home_point_solution() {
    let p = Point::new(2_000_000, 2_000_000, 2_000_000);
    let r = arm().solve_ik(p, false);
    assert!(r.reachable);
    assert_eq!(r.error, None);
    assert_eq!(r.q.target, p);
    assert!(!r.q.on_axis);
    assert!(!r.q.elbow_up);
    assert_eq!(r.q.cos_elbow_num, -3_760_000_000_000);
    assert_eq!(r.q.cos_elbow_den, 15_600_000_000_000);
    assert_eq!(r.message(), "OK");
}

#[test]
fn start_and_goal_point_solutions() {
    let a = arm();
    let s = a.solve_ik(Point::new(1_000_000, 2_000_000, 1_000_000), false);
    assert!(s.reachable);
    assert_eq!(s.q.cos_elbow_num, -9_760_000_000_000);
    let g = a.solve_ik(Point::new(2_000_000, 3_000_000, 2_000_000), false);
    assert!(g.reachable);
    assert_eq!(g.q.cos_elbow_num, 1_240_000_000_000);
}

#[test]
fn elbow_configuration_is_carried_through() {
    let p = Point::new(2_000_000, 2_000_000, 2_000_000);
    let up = arm().solve_ik(p, true);
    let down = arm().solve_ik(p, false);
    assert!(up.q.elbow_up);
    assert!(!down.q.elbow_up);
    assert_eq!(up.q.cos_elbow_num, down.q.cos_elbow_num);
    assert_eq!(up.q.cos_elbow_den, down.q.cos_elbow_den);
}

#[test]
fn target_on_the_base_axis_leaves_yaw_free() {
    let a = arm();
    assert!(a.solve_ik(Point::new(0, 0, 3_000_000), false).q.on_axis);
    assert!(!a.solve_ik(Point::new(1, 0, 3_000_000), false).q.on_axis);
    assert!(!a.solve_ik(Point::new(0, -1, 3_000_000), false).q.on_axis);
}

#[test]
fn full_extension_is_reachable_with_straight_elbow() {
    let a = arm();
    for p in [
        Point::new(5_600_000, 0, 0),
        Point::new(0, -5_600_000, 0),
        Point::new(0, 0, 5_600_000),
        Point::new(3_360_000, 0, 4_480_000),
        Point::new(-1_600_000, 4_800_000, 2_400_000),
    ] {
        assert_eq!(norm_sq(p), 5_600_000i128 * 5_600_000i128);
        for up in [false, true] {
            let r = a.solve_ik(p, up);
            assert!(r.reachable);
            assert!(r.q.cos_elbow_den > 0);
            assert_eq!(r.q.cos_elbow_num, r.q.cos_elbow_den);
        }
    }
}

#[test]
fn full_fold_is_reachable_with_reversed_elbow() {
    let a = arm();
    for p in [Point::new(400_000, 0, 0), Point::new(0, 240_000, 320_000)] {
        let r = a.solve_ik(p, false);
        assert!(r.reachable);
        assert_eq!(r.q.cos_elbow_num, -r.q.cos_elbow_den);
    }
}

#[test]
fn tolerance_of_a_nanometre_beyond_full_stretch() {
    let a = arm();
    // |p| exceeds the reach by less than a nanometre: taken, elbow held straight
    let inside = a.solve_ik(Point::new(5_600_000, 1, 0), false);
    assert!(inside.reachable);
    assert_eq!(inside.q.cos_elbow_num, inside.q.cos_elbow_den);
    assert!(a.solve_ik(Point::new(5_600_000, 105, 0), false).reachable);
    // |p| exceeds the reach by more than a nanometre: refused
    assert!(!a.solve_ik(Point::new(5_600_000, 106, 0), false).reachable);
    assert!(!a.solve_ik(Point::new(5_600_001, 0, 0), false).reachable);
}

#[test]
fn tolerance_of_a_nanometre_short_of_full_fold() {
    let a = arm();
    assert!(a.solve_ik(Point::new(400_000, 0, 0), false).reachable);
    assert!(!a.solve_ik(Point::new(399_999, 0, 0), false).reachable);
    assert!(a.solve_ik(Point::new(399_999, 900, 0), false).reachable);
}

#[test]
fn outside_the_reaches_by_more_than_the_tolerance_is_unreachable() {
    let a = arm();
    let lo = 400_000i128;
    let hi = 5_600_000i128;
    let mut seed: u64 = 12345;
    let mut seen_near = 0;
    let mut seen_far = 0;
    for _ in 0..20000 {
        seed = seed.wrapping_mul(6364136223846793005).wrapping_add(1442695040888963407);
        let scale = if seed & 1 == 0 { 1 } else { 16 };
        let x = (((seed >> 33) % 8_000_000) as i32 - 4_000_000) / scale;
        seed = seed.wrapping_mul(6364136223846793005).wrapping_add(1442695040888963407);
        let y = (((seed >> 33) % 8_000_000) as i32 - 4_000_000) / scale;
        seed = seed.wrapping_mul(6364136223846793005).wrapping_add(1442695040888963407);
        let z = (((seed >> 33) % 4_000_000) as i32) / scale;
        let p = Point::new(x, y, z);
        let n = norm_sq(p);
        let r = a.solve_ik(p, false);
        // |p| > hi + 1 um, or |p| < lo - 1 um: well beyond the tolerance
        if n > (hi + 1) * (hi + 1) {
            seen_far += 1;
            assert!(!r.reachable);
        }
        if n < (lo - 1) * (lo - 1) {
            seen_near += 1;
            assert!(!r.reachable);
        }
        if n >= lo * lo && n <= hi * hi {
            assert!(r.reachable);
        }
    }
    assert!(seen_far > 0);
    assert!(seen_near > 0);
}

#[test]
fn law_of_cosines_closes_the_triangle() {
    let a = arm();
    let l1 = 3_000_000i128;
    let l2 = 2_600_000i128;
    let mut seed: u64 = 777;
    let mut reachable = 0;
    for _ in 0..20000 {
        seed = seed.wrapping_mul(6364136223846793005).wrapping_add(1442695040888963407);
        let x = ((seed >> 33) % 8_000_000) as i32 - 4_000_000;
        seed = seed.wrapping_mul(6364136223846793005).wrapping_add(1442695040888963407);
        let y = ((seed >> 33) % 8_000_000) as i32 - 4_000_000;
        seed = seed.wrapping_mul(6364136223846793005).wrapping_add(1442695040888963407);
        let z = ((seed >> 33) % 4_000_000) as i32;
        let p = Point::new(x, y, z);
        let r = a.solve_ik(p, false);
        let n = norm_sq(p);
        if r.reachable && n >= 400_000i128 * 400_000 && n <= 5_600_000i128 * 5_600_000 {
            reachable += 1;
            assert_eq!(r.q.cos_elbow_den, 2 * l1 * l2);
            assert!(-r.q.cos_elbow_den <= r.q.cos_elbow_num);
            assert!(r.q.cos_elbow_num <= r.q.cos_elbow_den);
            assert_eq!(l1 * l1 + l2 * l2 + r.q.cos_elbow_num, n);
        }
    }
    assert!(reachable > 1000);
}

#[test]
fn extreme_coordinates_do_not_overflow() {
    let a = arm();
    for p in [
        Point::new(i32::MAX, i32::MAX, i32::MAX),
        Point::new(i32::MIN, i32::MIN, i32::MAX),
        Point::new(i32::MIN, i32::MAX, 0),
    ] {
        let r = a.solve_ik(p, false);
        assert!(!r.reachable);
    }
    // the distance, 3719550786.1.. um, is rounded away from the workspace
    let r = a.solve_ik(Point::new(i32::MIN, i32::MIN, i32::MAX), false);
    assert_eq!(
        r.error,
        Some(IkError::OutOfWorkspace {
            radius: 3_719_550_787,
            min_reach: 400_000,
            max_reach: 5_600_000
        })
    );
}

#[test]
fn longest_links_do_not_overflow() {
    let l = LinkParams { length_um: u32::MAX, mass_g: 1, ..LinkParams::default() };
    let a = RobotArm::new(l, l);
    assert_eq!(a.max_reach(), 2 * (u32::MAX as u64));
    let r = a.solve_ik(Point::new(i32::MAX, i32::MAX, i32::MAX), false);
    assert!(r.reachable);
    let l2 = (u32::MAX as i128) * (u32::MAX as i128);
    assert_eq!(r.q.cos_elbow_den, 2 * l2);
    assert_eq!(r.q.cos_elbow_num, norm_sq(Point::new(i32::MAX, i32::MAX, i32::MAX)) - 2 * l2);
}

#[test]
fn empty_outcome() {
    let r = IKResult::default();
    assert!(!r.reachable);
    assert_eq!(r.error, None);
    assert_eq!(r.q, JointSolution::default());
    assert_eq!(r.message(), "");
}

#[test]
fn rest_pose() {
    let q = JointSolution::default();
    assert_eq!(q.target, Point::zero());
    assert!(q.on_axis);
    assert!(!q.elbow_up);
    assert_eq!(q.cos_elbow_num, 0);
    assert_eq!(q.cos_elbow_den, 1);
}

#[test]
fn error_messages() {
    assert_eq!(IkError::InvalidTarget.message(), "Invalid target: z must be >= 0");
    assert_eq!(
        IkError::OutOfWorkspace { radius: 0, min_reach: 1, max_reach: 23 }.message(),
        "Target radius |p|=0 um is outside [1 um, 23 um]"
    );
}

#[test]
fn integer_square_roots() {
    assert_eq!(integer_sqrt(0), 0);
    assert_eq!(integer_sqrt(1), 1);
    assert_eq!(integer_sqrt(2), 1);
    assert_eq!(integer_sqrt(3), 1);
    assert_eq!(integer_sqrt(4), 2);
    assert_eq!(integer_sqrt(24), 4);
    assert_eq!(integer_sqrt(25), 5);
    assert_eq!(integer_sqrt(26), 5);
    assert_eq!(integer_sqrt(300_000_000_000_000), 17_320_508);
    assert_eq!(integer_sqrt(2_000_000_000_000), 1_414_213);
    assert_eq!(integer_sqrt(u64::MAX as u128), u32::MAX as u64);
    assert_eq!(integer_sqrt(u128::MAX), u64::MAX);
    assert_eq!(integer_sqrt((u64::MAX as u128) * (u64::MAX as u128)), u64::MAX);
    assert_eq!(integer_sqrt((u64::MAX as u128) * (u64::MAX as u128) - 1), u64::MAX - 1);
}

#[test]
fn integer_square_root_brackets_its_argument() {
    let mut seed: u128 = 0x1234_5678_9abc_def0_0fed_cba9_8765_4321;
    for i in 0..500 {
        seed = seed.wrapping_mul(0x2360_ed05_1fc6_5da4_4385_df64_9fcc_f645).wrapping_add(1);
        let n = seed >> (i % 128);
        let r = integer_sqrt(n) as u128;
        assert!(r * r <= n);
        assert!(r == u64::MAX as u128 || n < (r + 1) * (r + 1));
    }
}

#[test]
fn point_norms_and_distances() {
    let o = Point::zero();
    let p = Point::new(3, -4, 12);
    assert_eq!(p.norm_squared(), 169);
    assert_eq!(p.norm(), 13);
    assert_eq!(o.distance_squared(p), 169);
    assert_eq!(p.distance(o), 13);
    assert_eq!(Point::new(1, 1, 1).norm(), 1);
    assert_eq!(Point::new(2, 2, 2).distance(Point::new(1, 2, 1)), 1);
    assert_eq!(
        Point::new(2_000_000, 2_000_000, 2_000_000).distance(Point::new(1_000_000, 2_000_000, 1_000_000)),
        1_414_213
    );
}

#[test]
fn point_distances_at_the_extremes() {
    let lo = Point::new(i32::MIN, i32::MIN, i32::MIN);
    let hi = Point::new(i32::MAX, i32::MAX, i32::MAX);
    let span = u32::MAX as u128;
    assert_eq!(lo.distance_squared(hi), 3 * span * span);
    assert_eq!(hi.distance_squared(lo), 3 * span * span);
    assert_eq!(lo.distance(hi), 7_439_101_571);
    assert_eq!(lo.norm_squared(), 3 * (1u64 << 62));
    assert_eq!(lo.norm(), 3_719_550_786);
}

#[test]
fn point_construction() {
    let p = Point::new(1, -2, 3);
    assert_eq!(p, Point { x: 1, y: -2, z: 3 });
    assert_eq!(Point::zero(), Point { x: 0, y: 0, z: 0 });
}

#[test]
fn decimal_numerals() {
    assert_eq!(decimal(0), "0");
    assert_eq!(decimal(7), "7");
    assert_eq!(decimal(9), "9");
    assert_eq!(decimal(10), "10");
    assert_eq!(decimal(1_234_567_890), "1234567890");
    assert_eq!(decimal(u64::MAX), "18446744073709551615");
    for n in [11u64, 99, 100, 101, 5_600_000, 999_999_999_999] {
        assert_eq!(decimal(n), format!("{}", n));
    }
}

/// The joint angles that a solution stands for, in radians: yaw, shoulder,
/// elbow.
fn angles(a: &RobotArm, q: &JointSolution) -> (f64, f64, f64) {
    let (x, y, z) = (q.target.x as f64, q.target.y as f64, q.target.z as f64);
    let q0 = if q.on_axis { 0.0 } else { y.atan2(x) };
    let r = (x * x + y * y).sqrt();
    let l1 = a.l1() as f64;
    let l2 = a.l2() as f64;
    let mut q2 = (q.cos_elbow_num as f64 / q.cos_elbow_den as f64).acos();
    if !q.elbow_up {
        q2 = -q2;
    }
    let q1 = z.atan2(r) - (l2 * q2.sin()).atan2(l1 + l2 * q2.cos());
    (q0, q1, q2)
}

/// Where the joint angles put the elbow and the tool, in micrometres.
fn joints(a: &RobotArm, (q0, q1, q2): (f64, f64, f64)) -> ([f64; 3], [f64; 3]) {
    let l1 = a.l1() as f64;
    let l2 = a.l2() as f64;
    let elbow = [q0.cos() * l1 * q1.cos(), q0.sin() * l1 * q1.cos(), l1 * q1.sin()];
    let reach = q1 + q2;
    let tool = [
        elbow[0] + q0.cos() * l2 * reach.cos(),
        elbow[1] + q0.sin() * l2 * reach.cos(),
        elbow[2] + l2 * reach.sin(),
    ];
    (elbow, tool)
}

#[test]
fn joint_angles_of_a_solution_put_the_tool_at_the_target() {
    let a = arm();
    let mut seed: u64 = 2024;
    let mut reachable = 0;
    for i in 0..20000 {
        seed = seed.wrapping_mul(6364136223846793005).wrapping_add(1442695040888963407);
        let x = ((seed >> 33) % 8_000_000) as i32 - 4_000_000;
        seed = seed.wrapping_mul(6364136223846793005).wrapping_add(1442695040888963407);
        let y = ((seed >> 33) % 8_000_000) as i32 - 4_000_000;
        seed = seed.wrapping_mul(6364136223846793005).wrapping_add(1442695040888963407);
        let z = ((seed >> 33) % 4_000_000) as i32;
        let p = Point::new(x, y, z);
        let r = a.solve_ik(p, i % 2 == 0);
        if !r.reachable {
            continue;
        }
        reachable += 1;
        let (elbow, tool) = joints(&a, angles(&a, &r.q));
        // within a tenth of a millimetre
        assert!((tool[0] - x as f64).abs() < 100.0);
        assert!((tool[1] - y as f64).abs() < 100.0);
        assert!((tool[2] - z as f64).abs() < 100.0);
        let elbow_len = (elbow[0] * elbow[0] + elbow[1] * elbow[1] + elbow[2] * elbow[2]).sqrt();
        assert!((elbow_len - 3_000_000.0).abs() < 1.0);
    }
    assert!(reachable > 1000);
}

#[test]
fn joint_angles_at_the_edges_of_the_workspace() {
    let a = arm();
    for p in [
        Point::new(5_600_000, 0, 0),
        Point::new(5_600_000, 1, 0),
        Point::new(5_600_000, 105, 0),
        Point::new(3_360_000, 0, 4_480_000),
        Point::new(400_000, 0, 0),
        Point::new(0, 240_000, 320_000),
        Point::new(0, 0, 3_000_000),
        Point::new(0, 0, 5_600_000),
    ] {
        for up in [false, true] {
            let r = a.solve_ik(p, up);
            assert!(r.reachable);
            let q = angles(&a, &r.q);
            assert!(q.0.is_finite() && q.1.is_finite() && q.2.is_finite());
            let (_, tool) = joints(&a, q);
            assert!((tool[0] - p.x as f64).abs() < 100.0);
            assert!((tool[1] - p.y as f64).abs() < 100.0);
            assert!((tool[2] - p.z as f64).abs() < 100.0);
        }
    }
    // at full stretch the elbow angle is exactly zero
    let straight = a.solve_ik(Point::new(3_360_000, 0, 4_480_000), false);
    assert_eq!(angles(&a, &straight.q).2, 0.0);
}

#[test]
fn elbow_up_and_elbow_down_mirror_each_other() {
    let a = arm();
    let p = Point::new(2_000_000, 2_000_000, 2_000_000);
    let up = angles(&a, &a.solve_ik(p, true).q);
    let down = angles(&a, &a.solve_ik(p, false).q);
    assert_eq!(up.0, down.0);
    assert_eq!(up.2, -down.2);
    assert!(up.2 > 0.0);
    let (elbow_up, _) = joints(&a, up);
    let (elbow_down, _) = joints(&a, down);
    assert!(elbow_up[2] < elbow_down[2]);
}
