//! Fixed-point plane geometry: points, headings and scale ratios.
use vstd::prelude::*;

verus! {

/// Thousandths of a logical pixel in one logical pixel.
pub const UNIT: i64 = 1000;

/// Largest magnitude of a coordinate, in thousandths of a pixel.
pub const COORD_LIMIT: i64 = 1_000_000_000;

/// Quotient rounded toward zero, as integer division in Rust does it.
pub open spec fn trunc_div(a: int, d: int) -> int {
    if a >= 0 {
        a / d
    } else {
        -((-a) / d)
    }
}

/// `v * num / den`, rounded toward zero.
pub fn mul_div(v: i64, num: i64, den: i64) -> (r: i64)
    requires
        den > 0,
        -COORD_LIMIT <= v <= COORD_LIMIT,
        -COORD_LIMIT <= num <= COORD_LIMIT,
    ensures
        r == trunc_div(v * num, den as int),
        v * num >= 0 ==> 0 <= r <= v * num,
        v * num < 0 ==> v * num <= r <= 0,
{
    proof {
        let p = v as int * num as int;
        assert(-1_000_000_000_000_000_000 <= p <= 1_000_000_000_000_000_000) by (nonlinear_arith)
            requires
                -1_000_000_000 <= v <= 1_000_000_000,
                -1_000_000_000 <= num <= 1_000_000_000,
                p == v * num,
        ;
        if p >= 0 {
            assert(0 <= p / (den as int) <= p) by (nonlinear_arith)
                requires p >= 0, den >= 1;
        } else {
            assert(0 <= (-p) / (den as int) <= -p) by (nonlinear_arith)
                requires -p >= 0, den >= 1;
        }
    }
    let p: i64 = v * num;
    if p >= 0 {
        p / den
    } else {
        -((-p) / den)
    }
}

/// A point, or a vector, of the plane.
#[derive(Clone, Copy, Debug, PartialEq, Eq, Structural)]
pub struct Point {
    pub x: i64,
    pub y: i64,
}

impl Point {
    pub fn new(x: i64, y: i64) -> (r: Point)
        ensures
            r.x == x,
            r.y == y,
    {
        Point { x, y }
    }

    /// Both coordinates are within `COORD_LIMIT`.
    pub open spec fn in_range(self) -> bool {
        -COORD_LIMIT <= self.x <= COORD_LIMIT && -COORD_LIMIT <= self.y <= COORD_LIMIT
    }
}

/// Squared Euclidean distance between two points.
pub open spec fn dist_sq(a: Point, b: Point) -> int {
    (b.x - a.x) * (b.x - a.x) + (b.y - a.y) * (b.y - a.y)
}

/// `r` is the square root of `n`, rounded down.
pub open spec fn is_floor_sqrt(n: int, r: int) -> bool {
    0 <= r && r * r <= n < (r + 1) * (r + 1)
}

/// Square root of `n`, rounded down.
pub fn isqrt(n: u64) -> (r: u64)
    ensures
        is_floor_sqrt(n as int, r as int),
{
    let mut lo: u64 = 0;
    let mut hi: u64 = 0x1_0000_0000;
    assert(0x1_0000_0000 * 0x1_0000_0000 > 0xffff_ffff_ffff_ffff) by (nonlinear_arith);
    while hi - lo > 1
        invariant
            lo < hi <= 0x1_0000_0000,
            lo * lo <= n,
            n < hi * hi,
        decreases hi - lo,
    {
        let mid: u64 = lo + (hi - lo) / 2;
        assert(mid * mid < 0x1_0000_0000 * 0x1_0000_0000) by (nonlinear_arith)
            requires mid < 0x1_0000_0000;
        let sq: u128 = (mid as u128) * (mid as u128);
        if sq <= n as u128 {
            lo = mid;
        } else {
            hi = mid;
        }
    }
    lo
}

/// Distance between two points, rounded down.
pub fn distance(a: Point, b: Point) -> (r: u64)
    requires
        a.in_range(),
        b.in_range(),
    ensures
        is_floor_sqrt(dist_sq(a, b), r as int),
{
    let dx: i64 = b.x - a.x;
    let dy: i64 = b.y - a.y;
    let ax: u64 = if dx < 0 { (-dx) as u64 } else { dx as u64 };
    let ay: u64 = if dy < 0 { (-dy) as u64 } else { dy as u64 };
    assert(ax * ax <= 4_000_000_000_000_000_000) by (nonlinear_arith)
        requires ax <= 2_000_000_000;
    assert(ay * ay <= 4_000_000_000_000_000_000) by (nonlinear_arith)
        requires ay <= 2_000_000_000;
    assert(ax * ax == dx * dx) by (nonlinear_arith)
        requires ax == dx || ax == -dx;
    assert(ay * ay == dy * dy) by (nonlinear_arith)
        requires ay == dy || ay == -dy;
    isqrt(ax * ax + ay * ay)
}

/// A rotation about the depth axis, held as a nonzero direction vector: the
/// angle is `atan2(s, c)`.
#[derive(Clone, Copy, Debug, PartialEq, Eq, Structural)]
pub struct Heading {
    pub c: i64,
    pub s: i64,
}

impl Heading {
    /// The rotation by zero.
    pub fn identity() -> (r: Heading)
        ensures
            r == Heading::identity_spec(),
    {
        Heading { c: 1, s: 0 }
    }

    pub open spec fn identity_spec() -> Heading {
        Heading { c: 1, s: 0 }
    }
}

/// The rotation that turns the up axis onto the vector `(dx, dy)`, which is
/// `atan2(dy, dx) - pi/2`; for the zero vector it is `atan2(0, 0) - pi/2`,
/// a quarter turn clockwise.
pub open spec fn heading_toward(dx: int, dy: int) -> Heading {
    if dx == 0 && dy == 0 {
        Heading { c: 0, s: (-1) as i64 }
    } else {
        Heading { c: dy as i64, s: -dx as i64 }
    }
}

/// A scale factor held as the exact fraction `num / den`.
#[derive(Clone, Copy, Debug, PartialEq, Eq, Structural)]
pub struct Ratio {
    pub num: i64,
    pub den: i64,
}

impl Ratio {
    pub open spec fn wf(self) -> bool {
        self.den > 0
    }

    /// `n / d`.
    pub fn new(num: i64, den: i64) -> (r: Ratio)
        requires
            den > 0,
        ensures
            r == (Ratio { num, den }),
            r.wf(),
    {
        Ratio { num, den }
    }

    /// The whole number `n`.
    pub fn whole(n: i64) -> (r: Ratio)
        ensures
            r == (Ratio { num: n, den: 1 }),
            r.wf(),
    {
        Ratio { num: n, den: 1 }
    }
}

/// The scale of a shape along its two axes.
#[derive(Clone, Copy, Debug, PartialEq, Eq, Structural)]
pub struct Scale {
    pub x: Ratio,
    pub y: Ratio,
}

impl Scale {
    pub open spec fn wf(self) -> bool {
        self.x.wf() && self.y.wf()
    }

    /// The same fraction `r` on both axes.
    pub fn uniform(r: Ratio) -> (s: Scale)
        ensures
            s == (Scale { x: r, y: r }),
    {
        Scale { x: r, y: r }
    }
}

} // verus!
