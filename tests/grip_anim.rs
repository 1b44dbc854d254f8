use cat_paw::geom::Point;
use cat_paw::grip::{finger_position_of, target_of, AnimState, FACTOR_ONE, MAX_STEP_MICROS};
use cat_paw::rig::{finger_base_of, Rig, ARM, FINGER_COUNT, FIRST_FINGER, PALM};

const FRAME_MICROS: u64 = 16_667;

#[test]
fn targets_follow_the_buttons() {
    assert_eq!(target_of(true, false), -FACTOR_ONE);
    assert_eq!(target_of(true, true), -FACTOR_ONE);
    assert_eq!(target_of(false, true), FACTOR_ONE);
    assert_eq!(target_of(false, false), 0);
}

#[test]
fn one_step_is_an_exponential_approach() {
    let mut s = AnimState::new();
    assert_eq!(s.factor, 0);
    s.step(false, true, 50_000);
    // 0 + (1 - 0) * 10 * 0.05 = 0.5
    assert_eq!(s.factor, 500_000);
    s.step(true, false, 10_000);
    // 0.5 + (-1 - 0.5) * 10 * 0.01 = 0.35
    assert_eq!(s.factor, 350_000);
    s.step(false, true, MAX_STEP_MICROS);
    assert_eq!(s.factor, FACTOR_ONE);
}

#[test]
fn long_frames_never_pass_the_target() {
    let mut s = AnimState::new();
    for &dt in &[0u64, 300_000, 1, 16_667, 250_000, 5_000_000, 99_999] {
        s.advance(false, true, dt);
        assert!(s.factor >= 0 && s.factor <= FACTOR_ONE);
    }
    let mut s = AnimState::new();
    for &dt in &[300_000u64, 7, 250_000, 1_000_000] {
        s.advance(true, false, dt);
        assert!(s.factor <= 0 && s.factor >= -FACTOR_ONE);
    }
}

#[test]
fn long_frame_is_taken_in_bounded_steps() {
    let mut a = AnimState::new();
    a.advance(false, true, 150_000);
    let mut b = AnimState::new();
    b.step(false, true, MAX_STEP_MICROS);
    b.step(false, true, 50_000);
    assert_eq!(a, b);
}

#[test]
fn fingers_rest_at_neutral() {
    let mut rig = Rig::new();
    rig.place_fingers(0);
    for i in 0..FINGER_COUNT {
        assert_eq!(rig.pose_of(FIRST_FINGER + 2 * i).translation, finger_base_of(i));
    }
}

#[test]
fn clench_scenario() {
    let mut rig = Rig::new();
    let mut state = AnimState::new();
    for _ in 0..60 {
        rig.animate_grip(&mut state, true, false, FRAME_MICROS);
    }
    assert!((state.factor + FACTOR_ONE).abs() <= 1000);
    let f = state.factor as f64 / FACTOR_ONE as f64;
    for i in 0..FINGER_COUNT {
        let base = finger_base_of(i);
        let p = rig.pose_of(FIRST_FINGER + 2 * i).translation;
        assert!((p.x as f64 - (base.x as f64 + base.x as f64 * 0.3 * f)).abs() <= 1.0);
        assert!((p.y as f64 - (base.y as f64 + base.y as f64 * 0.3 * f)).abs() <= 1.0);
        // fully clenched: seven tenths of the rest offset
        let full = finger_position_of(base, -FACTOR_ONE);
        assert_eq!(full, Point::new(base.x * 7 / 10, base.y * 7 / 10));
    }
}

#[test]
fn open_spreads_wider_sideways() {
    let full = finger_position_of(Point::new(-50_000, 50_000), FACTOR_ONE);
    assert_eq!(full, Point::new(-65_000, 60_000));
    let half = finger_position_of(Point::new(20_000, 65_000), FACTOR_ONE / 2);
    assert_eq!(half, Point::new(23_000, 71_500));
    let clench = finger_position_of(Point::new(-20_000, 65_000), -FACTOR_ONE / 2);
    assert_eq!(clench, Point::new(-17_000, 55_250));
}

#[test]
fn neutral_recovery_scenario() {
    let mut state = AnimState { factor: -FACTOR_ONE };
    let mut previous = state.factor;
    let mut elapsed: u64 = 0;
    while elapsed < 500_000 {
        state.advance(false, false, FRAME_MICROS);
        elapsed += FRAME_MICROS;
        assert!(state.factor >= previous && state.factor <= 0);
        previous = state.factor;
    }
    assert!(state.factor.abs() < FACTOR_ONE / 100);
}

#[test]
fn grip_moves_only_fingers() {
    let mut rig = Rig::new();
    let mut state = AnimState::new();
    let arm = rig.pose_of(ARM);
    let palm = rig.pose_of(PALM);
    rig.animate_grip(&mut state, false, true, 40_000);
    assert_eq!(state.factor, 400_000);
    assert_eq!(rig.pose_of(ARM), arm);
    assert_eq!(rig.pose_of(PALM), palm);
    // 40% open: x out by 12%, y out by 8%
    assert_eq!(rig.pose_of(FIRST_FINGER).translation, Point::new(-56_000, 54_000));
}
