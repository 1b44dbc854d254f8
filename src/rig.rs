//! The paw's shape tree: an arena of nodes addressed by fixed handles.
//!
//! Every outlined shape is a dark parent with one lighter child, the fill,
//! drawn a little smaller on top of it so that the parent's rim shows as the
//! outline. Translations are in thousandths of the parent's local unit (of a
//! logical pixel for the roots); scales multiply the parent's unit.
use vstd::prelude::*;
use crate::geom::{Heading, Point, Ratio, Scale, UNIT};

verus! {

/// Width of the drawn outline, in thousandths of a pixel.
pub const OUTLINE_WIDTH: i64 = 6000;
/// Width of the arm without its outline.
pub const ARM_WIDTH: i64 = 40000;
/// Radius of the palm without its outline.
pub const PALM_RADIUS: i64 = 50000;
/// Radius of a finger without its outline.
pub const FINGER_RADIUS: i64 = 20000;
/// Sizes with the outline included.
pub const ARM_OUTER_WIDTH: i64 = ARM_WIDTH + OUTLINE_WIDTH;
/// Half of `ARM_OUTER_WIDTH`.
pub const BOTTOM_OUTER_RADIUS: i64 = 23000;
/// Half of `ARM_WIDTH - OUTLINE_WIDTH`.
pub const BOTTOM_INNER_RADIUS: i64 = 17000;
pub const PALM_OUTER_RADIUS: i64 = PALM_RADIUS + OUTLINE_WIDTH;
pub const FINGER_OUTER_RADIUS: i64 = FINGER_RADIUS + OUTLINE_WIDTH;

/// Draw depths, in tenths: higher draws on top.
pub const DEPTH_BASE: i64 = 0;
pub const DEPTH_FILL: i64 = 1;
pub const DEPTH_ARM: i64 = 10;
pub const DEPTH_PALM: i64 = 20;

/// Node handles.
pub const ARM: usize = 0;
pub const ARM_FILL: usize = 1;
pub const BOTTOM: usize = 2;
pub const BOTTOM_FILL: usize = 3;
pub const PALM: usize = 4;
pub const PALM_FILL: usize = 5;
pub const FIRST_FINGER: usize = 6;
pub const FINGER_COUNT: usize = 4;
pub const NODE_COUNT: usize = 14;

/// Largest magnitude of a scale's numerator.
pub const SCALE_LIMIT: i64 = 4_000_000_000_000;

/// Handle of finger `i`; its fill is the next handle.
pub open spec fn finger_handle(i: int) -> int {
    FIRST_FINGER + 2 * i
}

/// Rest offset of finger `i` from the palm's centre, in thousandths of the
/// palm's local unit: two leaning left, two leaning right.
pub open spec fn finger_base(i: int) -> Point {
    if i == 0 {
        Point { x: (-50000) as i64, y: 50000 }
    } else if i == 1 {
        Point { x: (-20000) as i64, y: 65000 }
    } else if i == 2 {
        Point { x: 20000, y: 65000 }
    } else {
        Point { x: 50000, y: 50000 }
    }
}

/// Rest offset of finger `i`.
pub fn finger_base_of(i: usize) -> (r: Point)
    requires
        i < FINGER_COUNT,
    ensures
        r == finger_base(i as int),
{
    if i == 0 {
        Point::new(-50000, 50000)
    } else if i == 1 {
        Point::new(-20000, 65000)
    } else if i == 2 {
        Point::new(20000, 65000)
    } else {
        Point::new(50000, 50000)
    }
}

/// What a node stands for.
#[derive(Clone, Copy, Debug, PartialEq, Eq, Structural)]
pub enum Role {
    Arm,
    Bottom,
    Palm,
    Finger { base: Point, index: usize },
    /// The inset child that paints over its parent's centre.
    Fill,
}

/// Placement of a node relative to its parent.
#[derive(Clone, Copy, Debug, PartialEq, Eq, Structural)]
pub struct Transform {
    pub translation: Point,
    /// Draw depth in tenths.
    pub depth: i64,
    pub rotation: Heading,
    pub scale: Scale,
}

impl Transform {
    pub open spec fn bounded(self) -> bool {
        &&& 0 < self.scale.x.den <= SCALE_LIMIT
        &&& 0 < self.scale.y.den <= SCALE_LIMIT
        &&& -SCALE_LIMIT <= self.scale.x.num <= SCALE_LIMIT
        &&& -SCALE_LIMIT <= self.scale.y.num <= SCALE_LIMIT
    }
}

#[derive(Debug)]
pub struct RigNode {
    pub role: Role,
    pub parent: Option<usize>,
    pub children: Vec<usize>,
    pub transform: Transform,
}

/// Role of the node at handle `i`.
pub open spec fn layout_role(i: int) -> Role {
    if i == ARM {
        Role::Arm
    } else if i == BOTTOM {
        Role::Bottom
    } else if i == PALM {
        Role::Palm
    } else if i >= FIRST_FINGER && (i - FIRST_FINGER) % 2 == 0 {
        Role::Finger {
            base: finger_base((i - FIRST_FINGER) / 2),
            index: ((i - FIRST_FINGER) / 2) as usize,
        }
    } else {
        Role::Fill
    }
}

/// Parent of the node at handle `i`.
pub open spec fn layout_parent(i: int) -> Option<usize> {
    if i == ARM || i == BOTTOM || i == PALM {
        None
    } else if i >= FIRST_FINGER && (i - FIRST_FINGER) % 2 == 0 {
        Some(PALM)
    } else {
        Some((i - 1) as usize)
    }
}

/// Children of the node at handle `i`, in order.
pub open spec fn layout_children(i: int) -> Seq<usize> {
    if i == ARM || i == BOTTOM {
        seq![(i + 1) as usize]
    } else if i == PALM {
        seq![5, 6, 8, 10, 12]
    } else if i >= FIRST_FINGER && (i - FIRST_FINGER) % 2 == 0 {
        seq![(i + 1) as usize]
    } else {
        seq![]
    }
}

/// The fraction `n / d` on both axes.
pub open spec fn uniform_scale(n: i64, d: i64) -> Scale {
    Scale { x: Ratio { num: n, den: d }, y: Ratio { num: n, den: d } }
}

/// The pose a node is built with.
pub open spec fn authored_transform(i: int) -> Transform {
    let base = Transform {
        translation: Point { x: 0, y: 0 },
        depth: DEPTH_BASE,
        rotation: Heading::identity_spec(),
        scale: Scale { x: Ratio { num: 1, den: 1 }, y: Ratio { num: 1, den: 1 } },
    };
    let fill = Transform { depth: DEPTH_FILL, ..base };
    if i == ARM {
        base
    } else if i == ARM_FILL {
        fill
    } else if i == BOTTOM {
        Transform { scale: uniform_scale(BOTTOM_OUTER_RADIUS, UNIT), ..base }
    } else if i == BOTTOM_FILL {
        Transform {
            scale: uniform_scale(BOTTOM_INNER_RADIUS, BOTTOM_OUTER_RADIUS),
            ..fill
        }
    } else if i == PALM {
        Transform { scale: uniform_scale(PALM_OUTER_RADIUS, UNIT), ..base }
    } else if i == PALM_FILL {
        Transform { scale: uniform_scale(PALM_RADIUS, PALM_OUTER_RADIUS), ..fill }
    } else if (i - FIRST_FINGER) % 2 == 0 {
        Transform {
            translation: finger_base((i - FIRST_FINGER) / 2),
            scale: uniform_scale(FINGER_OUTER_RADIUS, PALM_OUTER_RADIUS),
            ..base
        }
    } else {
        Transform { scale: uniform_scale(FINGER_RADIUS, FINGER_OUTER_RADIUS), ..fill }
    }
}

/// The whole paw.
#[derive(Debug)]
pub struct Rig {
    pub nodes: Vec<RigNode>,
}

impl Rig {
    /// Transform of the node at handle `i`.
    pub open spec fn pose(self, i: int) -> Transform {
        self.nodes@[i].transform
    }

    /// The tree has its fixed shape and every scale is in bounds.
    pub open spec fn wf(self) -> bool {
        &&& self.nodes@.len() == NODE_COUNT
        &&& forall|i: int|
            0 <= i < NODE_COUNT ==> {
                &&& #[trigger] self.nodes@[i].role == layout_role(i)
                &&& self.nodes@[i].parent == layout_parent(i)
                &&& self.nodes@[i].children@ == layout_children(i)
            }
        &&& self.pose(ARM as int).bounded()
    }

    /// The node at handle `i` has the role, parent and children of the
    /// fixed layout.
    pub open spec fn in_layout(n: RigNode, i: int) -> bool {
        &&& n.role == layout_role(i)
        &&& n.parent == layout_parent(i)
        &&& n.children@ == layout_children(i)
    }

    /// Builds the paw with every node in its authored pose.
    pub fn new() -> (r: Rig)
        ensures
            r.wf(),
            r.is_authored(),
    {
        let one = Ratio::whole(1);
        let base = Transform {
            translation: Point::new(0, 0),
            depth: DEPTH_BASE,
            rotation: Heading::identity(),
            scale: Scale::uniform(one),
        };
        let fill = Transform { depth: DEPTH_FILL, ..base };
        let mut nodes: Vec<RigNode> = Vec::new();
        nodes.push(RigNode { role: Role::Arm, parent: None, children: vec![ARM_FILL], transform: base });
        nodes.push(RigNode { role: Role::Fill, parent: Some(ARM), children: Vec::new(), transform: fill });
        nodes.push(
            RigNode {
                role: Role::Bottom,
                parent: None,
                children: vec![BOTTOM_FILL],
                transform: Transform {
                    scale: Scale::uniform(Ratio::new(BOTTOM_OUTER_RADIUS, UNIT)),
                    ..base
                },
            },
        );
        nodes.push(
            RigNode {
                role: Role::Fill,
                parent: Some(BOTTOM),
                children: Vec::new(),
                transform: Transform {
                    scale: Scale::uniform(Ratio::new(BOTTOM_INNER_RADIUS, BOTTOM_OUTER_RADIUS)),
                    ..fill
                },
            },
        );
        nodes.push(
            RigNode {
                role: Role::Palm,
                parent: None,
                children: vec![5, 6, 8, 10, 12],
                transform: Transform {
                    scale: Scale::uniform(Ratio::new(PALM_OUTER_RADIUS, UNIT)),
                    ..base
                },
            },
        );
        nodes.push(
            RigNode {
                role: Role::Fill,
                parent: Some(PALM),
                children: Vec::new(),
                transform: Transform {
                    scale: Scale::uniform(Ratio::new(PALM_RADIUS, PALM_OUTER_RADIUS)),
                    ..fill
                },
            },
        );
        assert(nodes@[0].children@ =~= layout_children(0));
        assert(Self::in_layout(nodes@[0], 0));
        assert(Self::in_layout(nodes@[1], 1));
        assert(nodes@[2].children@ =~= layout_children(2));
        assert(Self::in_layout(nodes@[2], 2));
        assert(Self::in_layout(nodes@[3], 3));
        assert(nodes@[4].children@ =~= layout_children(4));
        assert(Self::in_layout(nodes@[4], 4));
        assert(Self::in_layout(nodes@[5], 5));
        let mut i: usize = 0;
        while i < FINGER_COUNT
            invariant
                i <= FINGER_COUNT,
                nodes@.len() == FIRST_FINGER + 2 * i,
                forall|j: int|
                    0 <= j < nodes@.len() ==> Self::in_layout(#[trigger] nodes@[j], j)
                        && nodes@[j].transform == authored_transform(j),
                base.translation == (Point { x: 0, y: 0 }),
                base.depth == DEPTH_BASE,
                base.rotation == Heading::identity_spec(),
                fill == (Transform { depth: DEPTH_FILL, ..base }),
            decreases FINGER_COUNT - i,
        {
            let handle: usize = FIRST_FINGER + 2 * i;
            let finger = RigNode {
                role: Role::Finger { base: finger_base_of(i), index: i },
                parent: Some(PALM),
                children: vec![handle + 1],
                transform: Transform {
                    translation: finger_base_of(i),
                    scale: Scale::uniform(Ratio::new(FINGER_OUTER_RADIUS, PALM_OUTER_RADIUS)),
                    ..base
                },
            };
            let finger_fill = RigNode {
                role: Role::Fill,
                parent: Some(handle),
                children: Vec::new(),
                transform: Transform {
                    scale: Scale::uniform(Ratio::new(FINGER_RADIUS, FINGER_OUTER_RADIUS)),
                    ..fill
                },
            };
            assert((2 * i) as int % 2 == 0 && (2 * i) as int / 2 == i) by (nonlinear_arith);
            assert((2 * i + 1) as int % 2 == 1) by (nonlinear_arith);
            assert(finger.children@ =~= layout_children(handle as int));
            assert(Self::in_layout(finger, handle as int));
            assert(Self::in_layout(finger_fill, handle + 1));
            nodes.push(finger);
            nodes.push(finger_fill);
            i = i + 1;
        }
        let r = Rig { nodes };
        assert forall|j: int| 0 <= j < NODE_COUNT implies #[trigger] r.pose(j) == authored_transform(j) by {
            assert(Self::in_layout(r.nodes@[j], j));
        }
        r
    }

    /// Replaces the transform of the node at handle `i`.
    pub fn set_pose(&mut self, i: usize, t: Transform)
        requires
            old(self).wf(),
            i < NODE_COUNT,
            i == ARM ==> t.bounded(),
        ensures
            final(self).wf(),
            final(self).pose(i as int) == t,
            forall|j: int| 0 <= j < NODE_COUNT && j != i ==> #[trigger] final(self).pose(j) == old(self).pose(j),
    {
        self.nodes[i].transform = t;
        assert forall|j: int| 0 <= j < NODE_COUNT implies Self::in_layout(#[trigger] self.nodes@[j], j) by {
            assert(Self::in_layout(old(self).nodes@[j], j));
        }
    }

    /// Transform of the node at handle `i`.
    pub fn pose_of(&self, i: usize) -> (t: Transform)
        requires
            self.wf(),
            i < NODE_COUNT,
        ensures
            t == self.pose(i as int),
    {
        self.nodes[i].transform
    }

    /// Every node is in the pose it was built with.
    pub open spec fn is_authored(self) -> bool {
        forall|i: int| 0 <= i < NODE_COUNT ==> #[trigger] self.pose(i) == authored_transform(i)
    }
}

} // verus!
