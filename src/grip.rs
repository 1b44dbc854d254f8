//! Clenching and opening the paw: a smoothed grip factor and the finger
//! offsets that follow from it.
use vstd::prelude::*;
use crate::geom::{mul_div, trunc_div, Point};
use crate::rig::{
    finger_base, finger_base_of, finger_handle, Rig, Transform, FINGER_COUNT, FIRST_FINGER,
    NODE_COUNT,
};

verus! {

/// The grip factor of a fully open paw, in millionths; a fully clenched paw
/// has its negation and a neutral one zero.
pub const FACTOR_ONE: i64 = 1_000_000;
/// Microseconds in a second.
pub const MICROS: i64 = 1_000_000;
/// Rate of the approach toward the target, per second.
pub const GRIP_SPEED: i64 = 10;
/// Longest step, in microseconds, that the approach takes at once: one over
/// the speed. A longer step would carry the factor past its target.
pub const MAX_STEP_MICROS: u64 = 100_000;

/// The factor the grip heads for: clenched while the clench button is held,
/// else open while the open button is held, else neutral.
pub open spec fn grip_target(clench: bool, open: bool) -> int {
    if clench {
        -FACTOR_ONE
    } else if open {
        FACTOR_ONE as int
    } else {
        0
    }
}

/// One step of the exponential approach,
/// `factor + (target - factor) * speed * dt`, rounded toward zero.
pub open spec fn approach(factor: int, target: int, dt: int) -> int {
    factor + trunc_div((target - factor) * GRIP_SPEED * dt, MICROS as int)
}

/// The approach over `dt` microseconds, taken in steps of `MAX_STEP_MICROS`
/// and then the remainder.
pub open spec fn approach_split(factor: int, target: int, dt: nat) -> int
    decreases dt,
{
    if dt <= MAX_STEP_MICROS {
        approach(factor, target, dt as int)
    } else {
        approach_split(
            approach(factor, target, MAX_STEP_MICROS as int),
            target,
            (dt - MAX_STEP_MICROS) as nat,
        )
    }
}

/// The factor after frames of the given lengths, each taken as
/// `approach_split`, all toward one target.
pub open spec fn approach_frames(factor: int, target: int, dts: Seq<nat>) -> int
    decreases dts.len(),
{
    if dts.len() == 0 {
        factor
    } else {
        approach_frames(approach_split(factor, target, dts[0]), target, dts.drop_first())
    }
}

/// Where a finger with rest offset `base` stands at grip `factor`. Clenched,
/// it moves inward by 30% of `base` times the clench; open, outward by 20%
/// of `base` times the opening, spread half as much again sideways (30% on x).
pub open spec fn finger_position(base: Point, factor: int) -> Point {
    let den = 10 * FACTOR_ONE;
    if factor < 0 {
        Point {
            x: (base.x + trunc_div(base.x * (3 * factor), den)) as i64,
            y: (base.y + trunc_div(base.y * (3 * factor), den)) as i64,
        }
    } else {
        Point {
            x: (base.x + trunc_div(base.x * (3 * factor), den)) as i64,
            y: (base.y + trunc_div(base.y * (2 * factor), den)) as i64,
        }
    }
}

/// Target factor for the given buttons.
pub fn target_of(clench: bool, open: bool) -> (t: i64)
    ensures
        t == grip_target(clench, open),
{
    if clench {
        -FACTOR_ONE
    } else if open {
        FACTOR_ONE
    } else {
        0
    }
}

/// Offset of a finger with rest offset `base` at grip `factor`.
pub fn finger_position_of(base: Point, factor: i64) -> (p: Point)
    requires
        base.in_range(),
        -FACTOR_ONE <= factor <= FACTOR_ONE,
    ensures
        p == finger_position(base, factor as int),
{
    let den: i64 = 10 * FACTOR_ONE;
    assert forall|v: int, k: int|
        -1_000_000_000 <= v <= 1_000_000_000 && -3_000_000 <= k <= 3_000_000 implies
        -3_000_000_000_000_000 <= #[trigger] (v * k) <= 3_000_000_000_000_000 by {
        assert(-3_000_000_000_000_000 <= v * k <= 3_000_000_000_000_000) by (nonlinear_arith)
            requires
                -1_000_000_000 <= v <= 1_000_000_000,
                -3_000_000 <= k <= 3_000_000,
        ;
    }
    let dx = mul_div(base.x, 3 * factor, den);
    if factor < 0 {
        let dy = mul_div(base.y, 3 * factor, den);
        Point::new(base.x + dx, base.y + dy)
    } else {
        let dy = mul_div(base.y, 2 * factor, den);
        Point::new(base.x + dx, base.y + dy)
    }
}

/// The grip factor, kept between fully clenched and fully open.
#[derive(Clone, Copy, Debug, PartialEq, Eq, Structural)]
pub struct AnimState {
    pub factor: i64,
}

impl AnimState {
    pub open spec fn wf(self) -> bool {
        -FACTOR_ONE <= self.factor <= FACTOR_ONE
    }

    /// A neutral grip.
    pub fn new() -> (s: AnimState)
        ensures
            s.factor == 0,
            s.wf(),
    {
        AnimState { factor: 0 }
    }

    /// One approach step of `dt_micros` toward the target of the buttons.
    pub fn step(&mut self, clench: bool, open: bool, dt_micros: u64)
        requires
            old(self).wf(),
            dt_micros <= MAX_STEP_MICROS,
        ensures
            final(self).wf(),
            final(self).factor == approach(old(self).factor as int, grip_target(clench, open), dt_micros as int),
    {
        let target = target_of(clench, open);
        proof {
            lemma_approach_between(self.factor as int, target as int, dt_micros as int);
        }
        let diff: i64 = target - self.factor;
        let ghost p = diff * GRIP_SPEED * dt_micros;
        assert(-20_000_000_000_000 <= p <= 20_000_000_000_000) by (nonlinear_arith)
            requires
                p == diff * GRIP_SPEED * dt_micros,
                -2_000_000 <= diff <= 2_000_000,
                0 <= dt_micros <= 100_000,
        ;
        let prod: i64 = diff * GRIP_SPEED * (dt_micros as i64);
        let delta: i64 = if prod >= 0 { prod / MICROS } else { -((-prod) / MICROS) };
        self.factor = self.factor + delta;
    }

    /// Advances the grip by a frame of `dt_micros`, taken in steps of at most
    /// `MAX_STEP_MICROS` so that the factor never passes its target.
    pub fn advance(&mut self, clench: bool, open: bool, dt_micros: u64)
        requires
            old(self).wf(),
        ensures
            final(self).wf(),
            final(self).factor == approach_split(
                old(self).factor as int,
                grip_target(clench, open),
                dt_micros as nat,
            ),
    {
        let mut left: u64 = dt_micros;
        while left > MAX_STEP_MICROS
            invariant
                self.wf(),
                approach_split(self.factor as int, grip_target(clench, open), left as nat)
                    == approach_split(old(self).factor as int, grip_target(clench, open), dt_micros as nat),
            decreases left,
        {
            self.step(clench, open, MAX_STEP_MICROS);
            left = left - MAX_STEP_MICROS;
        }
        self.step(clench, open, left);
    }
}

impl Rig {
    /// Puts every finger where grip `factor` holds it, relative to its rest
    /// offset; nothing else moves.
    pub fn place_fingers(&mut self, factor: i64)
        requires
            old(self).wf(),
            -FACTOR_ONE <= factor <= FACTOR_ONE,
        ensures
            final(self).wf(),
            forall|i: int|
                0 <= i < FINGER_COUNT ==> #[trigger] final(self).pose(finger_handle(i)) == (Transform {
                    translation: finger_position(finger_base(i), factor as int),
                    ..old(self).pose(finger_handle(i))
                }),
            forall|j: int|
                0 <= j < NODE_COUNT && !Rig::is_finger(j) ==> #[trigger] final(self).pose(j) == old(
                    self,
                ).pose(j),
    {
        let mut i: usize = 0;
        while i < FINGER_COUNT
            invariant
                self.wf(),
                i <= FINGER_COUNT,
                -FACTOR_ONE <= factor <= FACTOR_ONE,
                forall|k: int|
                    0 <= k < i ==> #[trigger] self.pose(finger_handle(k)) == (Transform {
                        translation: finger_position(finger_base(k), factor as int),
                        ..old(self).pose(finger_handle(k))
                    }),
                forall|j: int|
                    0 <= j < NODE_COUNT && !(Rig::is_finger(j) && (j - FIRST_FINGER) / 2 < i)
                        ==> #[trigger] self.pose(j) == old(self).pose(j),
            decreases FINGER_COUNT - i,
        {
            let handle: usize = FIRST_FINGER + 2 * i;
            let pose = self.pose_of(handle);
            let position = finger_position_of(finger_base_of(i), factor);
            self.set_pose(handle, Transform { translation: position, ..pose });
            assert(((handle - FIRST_FINGER) as int) / 2 == i);
            assert forall|j: int|
                0 <= j < NODE_COUNT && !(Rig::is_finger(j) && (j - FIRST_FINGER) / 2 < i + 1)
                    implies #[trigger] self.pose(j) == old(self).pose(j) by {
                if Rig::is_finger(j) && (j - FIRST_FINGER) / 2 == i {
                    assert(j == handle);
                }
            }
            i = i + 1;
        }
    }

    /// Node `j` is a finger (not a finger's fill).
    pub open spec fn is_finger(j: int) -> bool {
        j >= FIRST_FINGER && (j - FIRST_FINGER) % 2 == 0
    }

    /// One frame of grip animation: the factor advances by `dt_micros`
    /// toward the target of the buttons, then the fingers take their places.
    pub fn animate_grip(&mut self, state: &mut AnimState, clench: bool, open: bool, dt_micros: u64)
        requires
            old(self).wf(),
            old(state).wf(),
        ensures
            final(self).wf(),
            final(state).wf(),
            final(state).factor == approach_split(
                old(state).factor as int,
                grip_target(clench, open),
                dt_micros as nat,
            ),
            forall|i: int|
                0 <= i < FINGER_COUNT ==> #[trigger] final(self).pose(finger_handle(i)) == (Transform {
                    translation: finger_position(finger_base(i), final(state).factor as int),
                    ..old(self).pose(finger_handle(i))
                }),
            forall|j: int|
                0 <= j < NODE_COUNT && !Rig::is_finger(j) ==> #[trigger] final(self).pose(j) == old(
                    self,
                ).pose(j),
    {
        state.advance(clench, open, dt_micros);
        self.place_fingers(state.factor);
    }
}

/// At a neutral grip every finger stands exactly at its rest offset.
pub proof fn lemma_fingers_rest(base: Point)
    ensures
        finger_position(base, 0) == base,
{
}

/// Frames of any lengths, from a neutral grip toward full opening, never
/// carry the factor above fully open nor below neutral; toward full clench,
/// never below fully clenched nor above neutral.
pub proof fn lemma_grip_bounded(dts: Seq<nat>)
    ensures
        0 <= approach_frames(0, FACTOR_ONE as int, dts) <= FACTOR_ONE,
        -FACTOR_ONE <= approach_frames(0, -FACTOR_ONE, dts) <= 0,
{
    lemma_frames_between(0, FACTOR_ONE as int, dts);
    lemma_frames_between(0, -FACTOR_ONE, dts);
}

/// Frames toward a target keep the factor between where it started and the
/// target.
pub proof fn lemma_frames_between(factor: int, target: int, dts: Seq<nat>)
    requires
        -FACTOR_ONE <= factor <= FACTOR_ONE,
        target == -FACTOR_ONE || target == 0 || target == FACTOR_ONE,
    ensures
        factor <= target ==> factor <= approach_frames(factor, target, dts) <= target,
        target <= factor ==> target <= approach_frames(factor, target, dts) <= factor,
    decreases dts.len(),
{
    if dts.len() > 0 {
        let next = approach_split(factor, target, dts[0]);
        lemma_split_between(factor, target, dts[0]);
        lemma_frames_between(next, target, dts.drop_first());
    }
}

/// A frame of any length, taken in bounded steps, lands between the factor
/// and the target.
pub proof fn lemma_split_between(factor: int, target: int, dt: nat)
    requires
        -FACTOR_ONE <= factor <= FACTOR_ONE,
        target == -FACTOR_ONE || target == 0 || target == FACTOR_ONE,
    ensures
        factor <= target ==> factor <= approach_split(factor, target, dt) <= target,
        target <= factor ==> target <= approach_split(factor, target, dt) <= factor,
    decreases dt,
{
    if dt <= MAX_STEP_MICROS {
        lemma_approach_between(factor, target, dt as int);
    } else {
        let next = approach(factor, target, MAX_STEP_MICROS as int);
        lemma_approach_between(factor, target, MAX_STEP_MICROS as int);
        lemma_split_between(next, target, (dt - MAX_STEP_MICROS) as nat);
    }
}

/// One approach step from a factor within bounds, of at most
/// `MAX_STEP_MICROS`, lands between the factor and the target.
pub proof fn lemma_approach_between(factor: int, target: int, dt: int)
    requires
        -FACTOR_ONE <= factor <= FACTOR_ONE,
        target == -FACTOR_ONE || target == 0 || target == FACTOR_ONE,
        0 <= dt <= MAX_STEP_MICROS,
    ensures
        factor <= target ==> factor <= approach(factor, target, dt) <= target,
        target <= factor ==> target <= approach(factor, target, dt) <= factor,
{
    let p = (target - factor) * GRIP_SPEED * dt;
    if factor <= target {
        assert(0 <= p <= (target - factor) * MICROS) by (nonlinear_arith)
            requires
                p == (target - factor) * 10 * dt,
                target - factor >= 0,
                0 <= dt <= 100_000,
        ;
        assert(0 <= p / (MICROS as int) <= target - factor) by (nonlinear_arith)
            requires
                0 <= p <= (target - factor) * 1_000_000,
        ;
    } else {
        assert(0 <= -p <= (factor - target) * MICROS) by (nonlinear_arith)
            requires
                p == (target - factor) * 10 * dt,
                factor - target > 0,
                0 <= dt <= 100_000,
        ;
        assert(0 <= (-p) / (MICROS as int) <= factor - target) by (nonlinear_arith)
            requires
                0 <= -p <= (factor - target) * 1_000_000,
        ;
    }
}

} // verus!
