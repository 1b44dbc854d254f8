//! Per-frame pose of the arm, bottom cap and palm, and the outline fill of the
//! stretched arm.
use vstd::prelude::*;
use crate::geom::{
    distance, dist_sq, heading_toward, is_floor_sqrt, trunc_div, Heading, Point, Ratio, Scale,
    COORD_LIMIT, UNIT,
};
use crate::rig::{
    Rig, Transform, ARM, ARM_FILL, ARM_OUTER_WIDTH, BOTTOM, DEPTH_ARM, DEPTH_PALM, NODE_COUNT,
    OUTLINE_WIDTH, PALM, SCALE_LIMIT,
};

verus! {

/// The fixed point the arm grows from: the bottom centre of a window of the
/// given height.
pub open spec fn anchor_for(window_height: int) -> Point {
    Point { x: 0, y: (-(window_height / 2)) as i64 }
}

/// Midpoint of two points, each coordinate rounded toward zero.
pub open spec fn midpoint(a: Point, b: Point) -> Point {
    Point { x: trunc_div(a.x + b.x, 2) as i64, y: trunc_div(a.y + b.y, 2) as i64 }
}

/// The rotation that points the arm from `anchor` to `pointer`.
pub open spec fn arm_heading(anchor: Point, pointer: Point) -> Heading {
    heading_toward(pointer.x - anchor.x, pointer.y - anchor.y)
}

/// The scale is positive on both axes.
pub open spec fn is_positive(s: Scale) -> bool {
    s.x.num > 0 && s.y.num > 0
}

/// Scale of a fill relative to a parent of scale `p` that stretches along
/// its length: the width loses the outline on both sides, clamped at zero,
/// and the length is kept whole.
pub open spec fn inset_scale(p: Scale) -> Scale {
    let outer = p.x.num * UNIT;
    let inner = outer - 2 * OUTLINE_WIDTH * p.x.den;
    Scale {
        x: Ratio { num: (if inner > 0 { inner } else { 0 }) as i64, den: outer as i64 },
        y: Ratio { num: (if p.y.num > 0 { p.y.num } else { 0 }) as i64, den: p.y.num },
    }
}

/// Anchor of a window of the given height.
pub fn anchor_of(window_height: i64) -> (a: Point)
    requires
        0 <= window_height <= COORD_LIMIT,
    ensures
        a == anchor_for(window_height as int),
        a.in_range(),
{
    Point::new(0, -(window_height / 2))
}

fn heading_of(anchor: Point, pointer: Point) -> (h: Heading)
    requires
        anchor.in_range(),
        pointer.in_range(),
    ensures
        h == arm_heading(anchor, pointer),
{
    let dx: i64 = pointer.x - anchor.x;
    let dy: i64 = pointer.y - anchor.y;
    if dx == 0 && dy == 0 {
        Heading { c: 0, s: -1 }
    } else {
        Heading { c: dy, s: -dx }
    }
}

impl Rig {
    /// Stretches the arm from `anchor` to `pointer`: the palm sits on the
    /// pointer, the arm spans the two points and turns with them, and the
    /// bottom cap covers the anchor without turning.
    pub fn follow_pointer(&mut self, anchor: Point, pointer: Point)
        requires
            old(self).wf(),
            anchor.in_range(),
            pointer.in_range(),
        ensures
            final(self).wf(),
            Rig::followed(*old(self), *final(self), anchor, pointer),
    {
        let rotation = heading_of(anchor, pointer);
        let length = distance(anchor, pointer);
        let ghost dx = pointer.x - anchor.x;
        let ghost dy = pointer.y - anchor.y;
        assert(dx * dx + dy * dy <= 8_000_000_000_000_000_000) by (nonlinear_arith)
            requires
                -2_000_000_000 <= dx <= 2_000_000_000,
                -2_000_000_000 <= dy <= 2_000_000_000,
        ;
        assert(length <= 3_000_000_000) by (nonlinear_arith)
            requires
                length * length <= dist_sq(anchor, pointer),
                dist_sq(anchor, pointer) <= 8_000_000_000_000_000_000,
        ;
        let palm = self.pose_of(PALM);
        self.set_pose(PALM, Transform { translation: pointer, depth: DEPTH_PALM, rotation, ..palm });
        let mid = Point::new((anchor.x + pointer.x) / 2, (anchor.y + pointer.y) / 2);
        self.set_pose(
            ARM,
            Transform {
                translation: mid,
                depth: DEPTH_ARM,
                rotation,
                scale: Scale { x: Ratio::new(ARM_OUTER_WIDTH, UNIT), y: Ratio::new(length as i64, UNIT) },
            },
        );
        let bottom = self.pose_of(BOTTOM);
        self.set_pose(BOTTOM, Transform { translation: anchor, depth: DEPTH_ARM, ..bottom });
    }

    /// Refits the arm's fill to the arm's current scale, so that the outline
    /// keeps its width however far the arm stretches. A parent scale that is
    /// not positive leaves the fill as it was.
    pub fn rescale_outlines(&mut self)
        requires
            old(self).wf(),
        ensures
            final(self).wf(),
            Rig::rescaled(*old(self), *final(self)),
    {
        let parent = self.pose_of(ARM).scale;
        if parent.x.num > 0 && parent.y.num > 0 {
            let outer: i64 = parent.x.num * UNIT;
            let inner: i64 = outer - 2 * OUTLINE_WIDTH * parent.x.den;
            let x = Ratio::new(if inner > 0 { inner } else { 0 }, outer);
            let y = Ratio::new(parent.y.num, parent.y.num);
            let fill = self.pose_of(ARM_FILL);
            self.set_pose(ARM_FILL, Transform { scale: Scale { x, y }, ..fill });
        }
    }

    /// One frame of pointer following in a window of the given height. With
    /// no pointer, or one beyond `COORD_LIMIT`, nothing moves; otherwise the
    /// arm is posed first and its fill refitted after.
    pub fn track_pointer(&mut self, pointer: Option<Point>, window_height: i64)
        requires
            old(self).wf(),
            0 <= window_height <= COORD_LIMIT,
        ensures
            final(self).wf(),
            match pointer {
                Some(p) if p.in_range() => exists|mid: Rig| {
                    &&& mid.wf()
                    &&& Rig::followed(*old(self), mid, anchor_for(window_height as int), p)
                    &&& Rig::rescaled(mid, *final(self))
                },
                _ => forall|j: int| 0 <= j < NODE_COUNT ==> #[trigger] final(self).pose(j) == old(self).pose(j),
            },
    {
        match pointer {
            Some(p) => {
                if -COORD_LIMIT <= p.x && p.x <= COORD_LIMIT && -COORD_LIMIT <= p.y && p.y <= COORD_LIMIT {
                    let anchor = anchor_of(window_height);
                    self.follow_pointer(anchor, p);
                    self.rescale_outlines();
                }
            },
            None => {},
        }
    }

    /// `after` is `before` with the arm stretched from `anchor` to `pointer`,
    /// as `follow_pointer` leaves it.
    pub open spec fn followed(before: Rig, after: Rig, anchor: Point, pointer: Point) -> bool {
        &&& after.pose(PALM as int) == (Transform {
            translation: pointer,
            depth: DEPTH_PALM,
            rotation: arm_heading(anchor, pointer),
            ..before.pose(PALM as int)
        })
        &&& after.pose(ARM as int).translation == midpoint(anchor, pointer)
        &&& after.pose(ARM as int).depth == DEPTH_ARM
        &&& after.pose(ARM as int).rotation == arm_heading(anchor, pointer)
        &&& after.pose(ARM as int).scale.x == (Ratio { num: ARM_OUTER_WIDTH, den: UNIT })
        &&& after.pose(ARM as int).scale.y.den == UNIT
        &&& is_floor_sqrt(dist_sq(anchor, pointer), after.pose(ARM as int).scale.y.num as int)
        &&& after.pose(BOTTOM as int) == (Transform {
            translation: anchor,
            depth: DEPTH_ARM,
            ..before.pose(BOTTOM as int)
        })
        &&& forall|j: int|
            0 <= j < NODE_COUNT && j != ARM && j != BOTTOM && j != PALM
                ==> #[trigger] after.pose(j) == before.pose(j)
    }

    /// `after` is `before` with the arm's fill refitted, as
    /// `rescale_outlines` leaves it.
    pub open spec fn rescaled(before: Rig, after: Rig) -> bool {
        &&& is_positive(before.pose(ARM as int).scale) ==> after.pose(ARM_FILL as int) == (
        Transform { scale: inset_scale(before.pose(ARM as int).scale), ..before.pose(ARM_FILL as int) })
        &&& !is_positive(before.pose(ARM as int).scale) ==> after.pose(ARM_FILL as int)
            == before.pose(ARM_FILL as int)
        &&& forall|j: int|
            0 <= j < NODE_COUNT && j != ARM_FILL ==> #[trigger] after.pose(j) == before.pose(j)
    }
}

/// The fill's width in pixels, the parent's width times the fill's relative
/// width, is the parent's width less the outline on both sides, whatever the
/// parent's length. With the parent's width `n / d` in pixels and the outline
/// `OUTLINE_WIDTH / UNIT`, the first clause is
/// `(n / d) * fill.x == (n * UNIT - 2 * OUTLINE_WIDTH * d) / (d * UNIT)`,
/// multiplied out.
pub proof fn lemma_outline_width(parent: Scale, length: Ratio)
    requires
        0 < parent.x.den <= SCALE_LIMIT,
        0 < parent.x.num <= SCALE_LIMIT,
        parent.x.num * UNIT > 2 * OUTLINE_WIDTH * parent.x.den,
    ensures
        ({
            let n = parent.x.num as int;
            let d = parent.x.den as int;
            let fill = inset_scale(parent);
            n * fill.x.num * (d * UNIT) == (n * UNIT - 2 * OUTLINE_WIDTH * d) * (d * fill.x.den)
        }),
        inset_scale(Scale { x: parent.x, y: length }).x == inset_scale(parent).x,
{
    let n = parent.x.num as int;
    let d = parent.x.den as int;
    let inner = n * UNIT - 2 * OUTLINE_WIDTH * d;
    assert(inset_scale(parent).x.num == inner);
    assert(inset_scale(parent).x.den == n * UNIT);
    assert(n * inner * (d * UNIT) == inner * (d * (n * UNIT))) by (nonlinear_arith);
}

/// After a frame that finds the pointer, the palm's centre is exactly the
/// pointer and the arm's length is the distance from the anchor to the
/// pointer, in thousandths of a pixel rounded down; the fill spans the arm's
/// full length.
pub proof fn lemma_frame_pose(before: Rig, mid: Rig, after: Rig, anchor: Point, pointer: Point)
    requires
        Rig::followed(before, mid, anchor, pointer),
        Rig::rescaled(mid, after),
    ensures
        after.pose(PALM as int).translation == pointer,
        after.pose(ARM as int).scale.y.den == UNIT,
        is_floor_sqrt(dist_sq(anchor, pointer), after.pose(ARM as int).scale.y.num as int),
        after.pose(ARM as int).scale.y.num > 0 ==> after.pose(ARM_FILL as int).scale.y.num
            == after.pose(ARM_FILL as int).scale.y.den,
{
    assert(after.pose(PALM as int) == mid.pose(PALM as int));
    assert(after.pose(ARM as int) == mid.pose(ARM as int));
}

} // verus!
