use cat_paw::geom::{distance, isqrt, mul_div, Heading, Point, Ratio, UNIT};
use cat_paw::pose::anchor_of;
use cat_paw::rig::{
    Rig, Role, ARM, ARM_FILL, BOTTOM, BOTTOM_FILL, DEPTH_ARM, DEPTH_FILL, DEPTH_PALM, FIRST_FINGER,
    NODE_COUNT, OUTLINE_WIDTH, PALM, PALM_FILL,
};

fn angle(h: Heading) -> f64 {
    (h.s as f64).atan2(h.c as f64)
}

#[test]
fn floor_square_roots() {
    assert_eq!(isqrt(0), 0);
    assert_eq!(isqrt(1), 1);
    assert_eq!(isqrt(3), 1);
    assert_eq!(isqrt(4), 2);
    assert_eq!(isqrt(99), 9);
    assert_eq!(isqrt(u64::MAX), 4_294_967_295);
    assert_eq!(distance(Point::new(0, 0), Point::new(3000, 4000)), 5000);
}

#[test]
fn products_round_toward_zero() {
    assert_eq!(mul_div(7, 1, 2), 3);
    assert_eq!(mul_div(-7, 1, 2), -3);
    assert_eq!(mul_div(-50000, 3, 10), -15000);
}

#[test]
fn built_rig_has_its_layout() {
    let rig = Rig::new();
    assert_eq!(rig.nodes.len(), NODE_COUNT);
    assert_eq!(rig.nodes[ARM].role, Role::Arm);
    assert_eq!(rig.nodes[ARM].children, vec![ARM_FILL]);
    assert_eq!(rig.nodes[ARM_FILL].parent, Some(ARM));
    assert_eq!(rig.nodes[BOTTOM].role, Role::Bottom);
    assert_eq!(rig.nodes[BOTTOM_FILL].role, Role::Fill);
    assert_eq!(rig.nodes[PALM].role, Role::Palm);
    assert_eq!(rig.nodes[PALM].children, vec![5, 6, 8, 10, 12]);
    assert_eq!(rig.pose_of(PALM_FILL).depth, DEPTH_FILL);
    let fourth = FIRST_FINGER + 6;
    assert_eq!(rig.nodes[fourth].role, Role::Finger { base: Point::new(50000, 50000), index: 3 });
    assert_eq!(rig.nodes[fourth].parent, Some(PALM));
    assert_eq!(rig.nodes[fourth + 1].parent, Some(fourth));
    // a bottom cap of radius 23 px with a 17 px fill
    let bottom = rig.pose_of(BOTTOM).scale.x;
    assert_eq!(bottom, Ratio::new(23000, 1000));
    assert_eq!(rig.pose_of(BOTTOM_FILL).scale.y, Ratio::new(17000, 23000));
}

#[test]
fn stretch_from_anchor_to_pointer() {
    let mut rig = Rig::new();
    let anchor = Point::new(0, -300 * UNIT);
    let pointer = Point::new(300 * UNIT, 0);
    rig.follow_pointer(anchor, pointer);
    let arm = rig.pose_of(ARM);
    assert_eq!(arm.scale.y, Ratio::new(424_264, UNIT));
    let length = arm.scale.y.num as f64 / arm.scale.y.den as f64;
    assert!((length - (300.0f64 * 300.0 * 2.0).sqrt()).abs() < 1e-2);
    assert_eq!(arm.scale.x, Ratio::new(46_000, UNIT));
    assert_eq!(arm.translation, Point::new(150_000, -150_000));
    assert_eq!(arm.depth, DEPTH_ARM);
    let palm = rig.pose_of(PALM);
    assert_eq!(palm.translation, pointer);
    assert_eq!(palm.depth, DEPTH_PALM);
    assert!((angle(palm.rotation) + std::f64::consts::FRAC_PI_4).abs() < 1e-9);
    assert!((angle(arm.rotation) + std::f64::consts::FRAC_PI_4).abs() < 1e-9);
    let bottom = rig.pose_of(BOTTOM);
    assert_eq!(bottom.translation, anchor);
    assert_eq!(bottom.rotation, Heading::identity());
}

#[test]
fn arm_length_matches_distance() {
    let anchor = Point::new(0, -540 * UNIT);
    for &(x, y) in &[(0i64, 0i64), (-700_000, 200_000), (12_345, -6_789), (960_000, 540_000)] {
        let mut rig = Rig::new();
        let pointer = Point::new(x, y);
        rig.follow_pointer(anchor, pointer);
        let dx = (x - anchor.x) as f64 / 1000.0;
        let dy = (y - anchor.y) as f64 / 1000.0;
        let length = rig.pose_of(ARM).scale.y.num as f64 / 1000.0;
        assert!((length - (dx * dx + dy * dy).sqrt()).abs() <= 1e-3);
        assert_eq!(rig.pose_of(PALM).translation, pointer);
    }
}

#[test]
fn pointer_straight_up_means_no_turn() {
    let mut rig = Rig::new();
    rig.follow_pointer(Point::new(0, -100_000), Point::new(0, 50_000));
    assert!(angle(rig.pose_of(PALM).rotation).abs() < 1e-12);
}

#[test]
fn pointer_on_anchor_gives_a_defined_turn() {
    let mut rig = Rig::new();
    let anchor = Point::new(0, -100_000);
    rig.follow_pointer(anchor, anchor);
    assert_eq!(rig.pose_of(ARM).scale.y.num, 0);
    let r = rig.pose_of(PALM).rotation;
    assert_eq!(r, Heading { c: 0, s: -1 });
    assert!((angle(r) + std::f64::consts::FRAC_PI_2).abs() < 1e-12);
}

#[test]
fn outline_keeps_its_width() {
    for &length in &[1_000i64, 424_264, 5_000_000] {
        let mut rig = Rig::new();
        rig.follow_pointer(Point::new(0, 0), Point::new(0, length));
        rig.rescale_outlines();
        let arm = rig.pose_of(ARM).scale;
        let fill = rig.pose_of(ARM_FILL).scale;
        let arm_width = arm.x.num as f64 / arm.x.den as f64;
        let fill_width = arm_width * fill.x.num as f64 / fill.x.den as f64;
        assert!((fill_width - (46.0 - 12.0)).abs() < 1e-9);
        assert_eq!(fill.y.num, fill.y.den);
        // exact: 46 px less 2 * 6 px over 46 px
        assert_eq!(fill.x, Ratio::new(46_000 * 1000 - 2 * OUTLINE_WIDTH * 1000, 46_000 * 1000));
    }
}

#[test]
fn zero_length_arm_leaves_the_fill() {
    let mut rig = Rig::new();
    let anchor = Point::new(0, -100_000);
    rig.follow_pointer(anchor, anchor);
    let before = rig.pose_of(ARM_FILL);
    rig.rescale_outlines();
    assert_eq!(rig.pose_of(ARM_FILL), before);
}

#[test]
fn frame_without_pointer_keeps_the_pose() {
    let mut rig = Rig::new();
    rig.track_pointer(Some(Point::new(100_000, 200_000)), 1_080_000);
    let arm = rig.pose_of(ARM);
    let palm = rig.pose_of(PALM);
    rig.track_pointer(None, 1_080_000);
    assert_eq!(rig.pose_of(ARM), arm);
    assert_eq!(rig.pose_of(PALM), palm);
    rig.track_pointer(Some(Point::new(i64::MAX, 0)), 1_080_000);
    assert_eq!(rig.pose_of(PALM), palm);
}

#[test]
fn frame_poses_arm_then_fill() {
    let mut rig = Rig::new();
    rig.track_pointer(Some(Point::new(300_000, 0)), 600_000);
    assert_eq!(anchor_of(600_000), Point::new(0, -300_000));
    assert_eq!(rig.pose_of(BOTTOM).translation, Point::new(0, -300_000));
    assert_eq!(rig.pose_of(ARM).scale.y.num, 424_264);
    assert_eq!(rig.pose_of(ARM_FILL).scale.x, Ratio::new(34_000_000, 46_000_000));
    assert_eq!(rig.pose_of(ARM_FILL).scale.y, Ratio::new(424_264, 424_264));
}
