//! Exact point-in-shape tests on integer coordinates.
//!
//! Positions are integers in a fine unit (`UNIT` of them to one world unit).
//! A rotation is held as its cosine and sine, each multiplied by `ROT_ONE`,
//! so every test below is exact integer arithmetic on the values given.
use vstd::prelude::*;

verus! {

/// The fixed-point value that stands for 1.0 in a rotation's cosine and sine.
pub const ROT_ONE: i64 = 65536;

/// Library coordinates per world unit.
pub const UNIT: i64 = 100;

/// Largest magnitude of a coordinate, a half extent or a radius.
pub const COORD_LIMIT: i64 = 4294967296;

#[derive(Clone, Copy, Debug, PartialEq, Eq, Structural)]
pub struct Point {
    pub x: i64,
    pub y: i64,
}

/// A rigid placement: a translation, and a rotation given by
/// `(cos, sin)` scaled by `ROT_ONE`. A local point `l` is placed at
/// `(x, y) + R l` where `R = [[cos, -sin], [sin, cos]] / ROT_ONE`.
#[derive(Clone, Copy, Debug, PartialEq, Eq, Structural)]
pub struct Pose {
    pub x: i64,
    pub y: i64,
    pub cos: i64,
    pub sin: i64,
}

/// A collider shape, in its own local frame.
#[derive(Clone, Copy, Debug, PartialEq, Eq, Structural)]
pub enum Shape {
    /// Centred on the origin, axis-aligned in the local frame.
    Rectangle { half_width: i64, half_height: i64 },
    Triangle { a: Point, b: Point, c: Point },
    /// Centred on the origin.
    Circle { radius: i64 },
}

pub open spec fn in_range(v: int) -> bool {
    -COORD_LIMIT <= v <= COORD_LIMIT
}

impl Point {
    pub open spec fn wf(&self) -> bool {
        in_range(self.x as int) && in_range(self.y as int)
    }
}

impl Pose {
    pub open spec fn wf(&self) -> bool {
        &&& in_range(self.x as int)
        &&& in_range(self.y as int)
        &&& -ROT_ONE <= self.cos <= ROT_ONE
        &&& -ROT_ONE <= self.sin <= ROT_ONE
    }

    /// The placement with no rotation.
    pub open spec fn is_unrotated(&self) -> bool {
        self.cos == ROT_ONE && self.sin == 0
    }

    pub fn at(x: i64, y: i64) -> (r: Pose)
        ensures
            r == (Pose { x, y, cos: ROT_ONE, sin: 0 }),
    {
        Pose { x, y, cos: ROT_ONE, sin: 0 }
    }
}

impl Shape {
    pub open spec fn wf(&self) -> bool {
        match *self {
            Shape::Rectangle { half_width, half_height } => 0 <= half_width <= COORD_LIMIT && 0
                <= half_height <= COORD_LIMIT,
            Shape::Triangle { a, b, c } => a.wf() && b.wf() && c.wf(),
            Shape::Circle { radius } => 0 <= radius <= COORD_LIMIT,
        }
    }
}

/// The first coordinate of `p` in the frame of `pose`, times `ROT_ONE`.
pub open spec fn local_x(pose: Pose, p: Point) -> int {
    pose.cos * (p.x - pose.x) + pose.sin * (p.y - pose.y)
}

/// The second coordinate of `p` in the frame of `pose`, times `ROT_ONE`.
pub open spec fn local_y(pose: Pose, p: Point) -> int {
    -pose.sin * (p.x - pose.x) + pose.cos * (p.y - pose.y)
}

pub open spec fn abs(v: int) -> int {
    if v < 0 {
        -v
    } else {
        v
    }
}

/// Twice the signed area of the triangle `(a, b, p)`.
pub open spec fn cross(ax: int, ay: int, bx: int, by: int, px: int, py: int) -> int {
    (bx - ax) * (py - ay) - (by - ay) * (px - ax)
}

/// Whether the local point `(lx, ly)`, times `ROT_ONE`, lies in `shape`.
/// Boundaries count as inside.
pub open spec fn shape_holds(shape: Shape, lx: int, ly: int) -> bool {
    match shape {
        Shape::Rectangle { half_width, half_height } => abs(lx) <= half_width * ROT_ONE && abs(ly)
            <= half_height * ROT_ONE,
        Shape::Circle { radius } => lx * lx + ly * ly <= (radius * ROT_ONE) * (radius * ROT_ONE),
        Shape::Triangle { a, b, c } => {
            let (ax, ay) = (a.x * ROT_ONE, a.y * ROT_ONE);
            let (bx, by) = (b.x * ROT_ONE, b.y * ROT_ONE);
            let (cx, cy) = (c.x * ROT_ONE, c.y * ROT_ONE);
            let d1 = cross(ax, ay, bx, by, lx, ly);
            let d2 = cross(bx, by, cx, cy, lx, ly);
            let d3 = cross(cx, cy, ax, ay, lx, ly);
            (d1 >= 0 && d2 >= 0 && d3 >= 0) || (d1 <= 0 && d2 <= 0 && d3 <= 0)
        },
    }
}

/// Whether the world point `p` lies in `shape` placed at `pose`.
pub open spec fn shape_contains(shape: Shape, pose: Pose, p: Point) -> bool {
    shape_holds(shape, local_x(pose, p), local_y(pose, p))
}

proof fn lemma_mul_bound(a: int, b: int, ba: int, bb: int)
    requires
        abs(a) <= ba,
        abs(b) <= bb,
    ensures
        abs(a * b) <= ba * bb,
        -(ba * bb) <= a * b <= ba * bb,
{
    assert(abs(a * b) == abs(a) * abs(b)) by (nonlinear_arith);
    assert(abs(a) * abs(b) <= ba * bb) by (nonlinear_arith)
        requires
            0 <= abs(a) <= ba,
            0 <= abs(b) <= bb,
    ;
}

/// The point `p` in the frame of `pose`, both coordinates times `ROT_ONE`.
pub fn to_local(pose: &Pose, p: Point) -> (r: (i128, i128))
    requires
        pose.wf(),
        p.wf(),
    ensures
        r.0 == local_x(*pose, p),
        r.1 == local_y(*pose, p),
        abs(r.0 as int) <= 2 * (ROT_ONE * (2 * COORD_LIMIT)),
        abs(r.1 as int) <= 2 * (ROT_ONE * (2 * COORD_LIMIT)),
{
    let dx = p.x as i128 - pose.x as i128;
    let dy = p.y as i128 - pose.y as i128;
    proof {
        lemma_mul_bound(pose.cos as int, dx as int, ROT_ONE as int, 2 * COORD_LIMIT);
        lemma_mul_bound(pose.sin as int, dy as int, ROT_ONE as int, 2 * COORD_LIMIT);
        lemma_mul_bound(-pose.sin as int, dx as int, ROT_ONE as int, 2 * COORD_LIMIT);
        lemma_mul_bound(pose.cos as int, dy as int, ROT_ONE as int, 2 * COORD_LIMIT);
    }
    let lx = pose.cos as i128 * dx + pose.sin as i128 * dy;
    let ly = -(pose.sin as i128) * dx + pose.cos as i128 * dy;
    (lx, ly)
}

/// Twice the signed area of `(a, b, p)`, on coordinates of bounded size.
fn cross_exec(ax: i128, ay: i128, bx: i128, by: i128, px: i128, py: i128) -> (r: i128)
    requires
        abs(ax as int) <= ROT_ONE * COORD_LIMIT,
        abs(ay as int) <= ROT_ONE * COORD_LIMIT,
        abs(bx as int) <= ROT_ONE * COORD_LIMIT,
        abs(by as int) <= ROT_ONE * COORD_LIMIT,
        abs(px as int) <= 2 * (ROT_ONE * (2 * COORD_LIMIT)),
        abs(py as int) <= 2 * (ROT_ONE * (2 * COORD_LIMIT)),
    ensures
        r == cross(ax as int, ay as int, bx as int, by as int, px as int, py as int),
{
    let ghost big: int = 8 * (ROT_ONE as int * COORD_LIMIT as int);
    proof {
        lemma_mul_bound((bx - ax) as int, (py - ay) as int, big, big);
        lemma_mul_bound((by - ay) as int, (px - ax) as int, big, big);
        assert(big * big < 0x1000_0000_0000_0000_0000_0000_0000_0000) by (nonlinear_arith)
            requires
                big == 8 * (65536 * 4294967296int),
        ;
    }
    (bx - ax) * (py - ay) - (by - ay) * (px - ax)
}

/// Whether the world point `p` lies in `shape` placed at `pose`.
pub fn contains_point(shape: &Shape, pose: &Pose, p: Point) -> (r: bool)
    requires
        shape.wf(),
        pose.wf(),
        p.wf(),
    ensures
        r == shape_contains(*shape, *pose, p),
{
    let (lx, ly) = to_local(pose, p);
    let ghost big: int = 2 * (ROT_ONE as int * (2 * COORD_LIMIT as int));
    match *shape {
        Shape::Rectangle { half_width, half_height } => {
            let ax = if lx < 0 {
                -lx
            } else {
                lx
            };
            let ay = if ly < 0 {
                -ly
            } else {
                ly
            };
            ax <= half_width as i128 * ROT_ONE as i128 && ay <= half_height as i128
                * ROT_ONE as i128
        },
        Shape::Circle { radius } => {
            proof {
                lemma_mul_bound(radius as int, ROT_ONE as int, COORD_LIMIT as int, ROT_ONE as int);
            }
            let rs = radius as i128 * ROT_ONE as i128;
            proof {
                lemma_mul_bound(lx as int, lx as int, big, big);
                lemma_mul_bound(ly as int, ly as int, big, big);
                lemma_mul_bound(rs as int, rs as int, big, big);
                assert(big * big < 0x1000_0000_0000_0000_0000_0000_0000_0000) by (nonlinear_arith)
                    requires
                        big == 2 * (65536 * (2 * 4294967296int)),
                ;
            }
            lx * lx + ly * ly <= rs * rs
        },
        Shape::Triangle { a, b, c } => {
            proof {
                lemma_mul_bound(a.x as int, ROT_ONE as int, COORD_LIMIT as int, ROT_ONE as int);
                lemma_mul_bound(a.y as int, ROT_ONE as int, COORD_LIMIT as int, ROT_ONE as int);
                lemma_mul_bound(b.x as int, ROT_ONE as int, COORD_LIMIT as int, ROT_ONE as int);
                lemma_mul_bound(b.y as int, ROT_ONE as int, COORD_LIMIT as int, ROT_ONE as int);
                lemma_mul_bound(c.x as int, ROT_ONE as int, COORD_LIMIT as int, ROT_ONE as int);
                lemma_mul_bound(c.y as int, ROT_ONE as int, COORD_LIMIT as int, ROT_ONE as int);
            }
            let ax = a.x as i128 * ROT_ONE as i128;
            let ay = a.y as i128 * ROT_ONE as i128;
            let bx = b.x as i128 * ROT_ONE as i128;
            let by = b.y as i128 * ROT_ONE as i128;
            let cx = c.x as i128 * ROT_ONE as i128;
            let cy = c.y as i128 * ROT_ONE as i128;
            let d1 = cross_exec(ax, ay, bx, by, lx, ly);
            let d2 = cross_exec(bx, by, cx, cy, lx, ly);
            let d3 = cross_exec(cx, cy, ax, ay, lx, ly);
            (d1 >= 0 && d2 >= 0 && d3 >= 0) || (d1 <= 0 && d2 <= 0 && d3 <= 0)
        },
    }
}

} // verus!
