//! The bottle assembly: a container body with three grabbable colliders,
//! two content particles that slide along the container's vertical axis,
//! and the pointer anchor. One routine builds it, at start and on reset.
use crate::geometry::{Point, Pose, Shape, UNIT, ROT_ONE};
use vstd::prelude::*;

verus! {

pub const BOTTLE_BODY_HALF_WIDTH: i64 = 25 * UNIT;

pub const BOTTLE_BODY_HALF_HEIGHT: i64 = 45 * UNIT;

pub const BOTTLE_NECK_HEIGHT: i64 = 30 * UNIT;

pub const BOTTLE_CAP_HALF_WIDTH: i64 = 10 * UNIT;

pub const BOTTLE_CAP_HALF_HEIGHT: i64 = 5 * UNIT;

pub const CONTENT_RADIUS: i64 = 18 * UNIT;

/// Height of the neck's base above the container's centre.
pub const NECK_OFFSET: i64 = BOTTLE_BODY_HALF_HEIGHT;

/// Height of the cap's centre above the container's centre.
pub const CAP_OFFSET: i64 = BOTTLE_BODY_HALF_HEIGHT + BOTTLE_NECK_HEIGHT - BOTTLE_CAP_HALF_HEIGHT;

/// Lowest travel of a content particle along the container's vertical axis.
pub const CONTENT_LOWER_LIMIT: i64 = CONTENT_RADIUS - BOTTLE_BODY_HALF_HEIGHT;

/// Highest travel of a content particle along the container's vertical axis.
pub const CONTENT_UPPER_LIMIT: i64 = BOTTLE_BODY_HALF_HEIGHT - CONTENT_RADIUS + BOTTLE_NECK_HEIGHT;

/// Densities are held in thousandths.
pub const BOTTLE_DENSITY_MILLI: i64 = 400;

pub const CONTENT_DENSITY_MILLI: i64 = 4000;

/// The container's angular damping, in thousandths.
pub const BOTTLE_ANGULAR_DAMPING_MILLI: i64 = 500;

/// The kinematic point that a grab joint attaches to.
#[derive(Clone, Copy, Debug, PartialEq, Eq, Structural)]
pub struct GrabAnchor {
    pub position: Point,
}

/// A grabbable collider of the bottle and where it stands in the world.
#[derive(Clone, Copy, Debug, PartialEq, Eq, Structural)]
pub struct Grabbable {
    pub pose: Pose,
    pub shape: Shape,
}

/// The container body and its grabbable colliders. All of them move
/// rigidly with `pose`; the order of `grabbables` is the order in which
/// hit tests try them.
#[derive(Clone, Debug)]
pub struct Bottle {
    pub pose: Pose,
    pub grabbables: Vec<Grabbable>,
}

/// A content particle: a dynamic circle, denser than the container.
#[derive(Clone, Copy, Debug, PartialEq, Eq, Structural)]
pub struct BottleContent {
    pub position: Point,
    pub radius: i64,
    pub density_milli: i64,
}

/// A sliding joint that holds content particle `content` on the
/// container's local vertical axis, between `lower` and `upper`.
#[derive(Clone, Copy, Debug, PartialEq, Eq, Structural)]
pub struct BottleContentJoint {
    pub content: usize,
    pub lower: i64,
    pub upper: i64,
}

/// Everything that the construction routine creates.
#[derive(Clone, Debug)]
pub struct BottleScene {
    pub anchor: GrabAnchor,
    pub bottle: Bottle,
    pub density_milli: i64,
    pub angular_damping_milli: i64,
    pub contents: Vec<BottleContent>,
    pub content_joints: Vec<BottleContentJoint>,
}

impl Bottle {
    pub open spec fn wf(&self) -> bool {
        &&& self.pose.wf()
        &&& forall|i: int|
            0 <= i < self.grabbables@.len() ==> {
                &&& (#[trigger] self.grabbables@[i]).pose.wf()
                &&& self.grabbables@[i].shape.wf()
            }
    }
}

pub open spec fn body_shape() -> Shape {
    Shape::Rectangle { half_width: BOTTLE_BODY_HALF_WIDTH, half_height: BOTTLE_BODY_HALF_HEIGHT }
}

pub open spec fn neck_shape() -> Shape {
    Shape::Triangle {
        a: Point { x: 0, y: BOTTLE_NECK_HEIGHT },
        b: Point { x: (-BOTTLE_BODY_HALF_WIDTH) as i64, y: 0 },
        c: Point { x: BOTTLE_BODY_HALF_WIDTH, y: 0 },
    }
}

pub open spec fn cap_shape() -> Shape {
    Shape::Rectangle { half_width: BOTTLE_CAP_HALF_WIDTH, half_height: BOTTLE_CAP_HALF_HEIGHT }
}

/// The built scene, with the container at the origin and unrotated.
pub open spec fn initial_scene() -> (Pose, Seq<Grabbable>, Seq<BottleContent>, Seq<BottleContentJoint>) {
    (
        Pose { x: 0, y: 0, cos: ROT_ONE, sin: 0 },
        seq![
            Grabbable { pose: Pose { x: 0, y: 0, cos: ROT_ONE, sin: 0 }, shape: body_shape() },
            Grabbable { pose: Pose { x: 0, y: NECK_OFFSET, cos: ROT_ONE, sin: 0 }, shape: neck_shape() },
            Grabbable { pose: Pose { x: 0, y: CAP_OFFSET, cos: ROT_ONE, sin: 0 }, shape: cap_shape() },
        ],
        seq![
            BottleContent { position: Point { x: 0, y: CONTENT_RADIUS }, radius: CONTENT_RADIUS, density_milli: CONTENT_DENSITY_MILLI },
            BottleContent { position: Point { x: 0, y: (-CONTENT_RADIUS) as i64 }, radius: CONTENT_RADIUS, density_milli: CONTENT_DENSITY_MILLI },
        ],
        seq![
            BottleContentJoint { content: 0, lower: CONTENT_LOWER_LIMIT, upper: CONTENT_UPPER_LIMIT },
            BottleContentJoint { content: 1, lower: CONTENT_LOWER_LIMIT, upper: CONTENT_UPPER_LIMIT },
        ],
    )
}

impl BottleScene {
    /// The scene exactly as the construction routine builds it.
    pub open spec fn is_initial(&self) -> bool {
        &&& self.anchor.position == (Point { x: 0, y: 0 })
        &&& self.bottle.pose == initial_scene().0
        &&& self.bottle.grabbables@ == initial_scene().1
        &&& self.contents@ == initial_scene().2
        &&& self.content_joints@ == initial_scene().3
        &&& self.density_milli == BOTTLE_DENSITY_MILLI
        &&& self.angular_damping_milli == BOTTLE_ANGULAR_DAMPING_MILLI
    }

    /// Every content joint names a particle, its travel range is not empty,
    /// and the particle starts inside it, measured from the container's
    /// centre along the container's vertical axis.
    pub open spec fn limits_satisfiable(&self) -> bool {
        forall|j: int|
            0 <= j < self.content_joints@.len() ==> {
                let joint = #[trigger] self.content_joints@[j];
                let k = joint.content as int;
                &&& 0 <= k < self.contents@.len()
                &&& joint.lower <= joint.upper
                &&& joint.lower <= self.contents@[k].position.y - self.bottle.pose.y
                    <= joint.upper
                &&& self.contents@[k].position.x == self.bottle.pose.x
            }
    }
}

/// The travel limits of the content particles, as built, can be met: each
/// range is not empty and holds its particle's starting place, so the
/// sliding joints start satisfied and can keep the particles within them.
pub proof fn lemma_content_limits_satisfiable(scene: BottleScene)
    requires
        scene.is_initial(),
    ensures
        scene.limits_satisfiable(),
        CONTENT_LOWER_LIMIT < CONTENT_UPPER_LIMIT,
{
    assert forall|j: int| 0 <= j < scene.content_joints@.len() implies {
        let joint = #[trigger] scene.content_joints@[j];
        let k = joint.content as int;
        &&& 0 <= k < scene.contents@.len()
        &&& joint.lower <= joint.upper
        &&& joint.lower <= scene.contents@[k].position.y - scene.bottle.pose.y <= joint.upper
        &&& scene.contents@[k].position.x == scene.bottle.pose.x
    } by {
        assert(j == 0 || j == 1);
    }
}

/// Builds the bottle assembly and the anchor, as at start and on reset.
pub fn spawn_bottle() -> (r: BottleScene)
    ensures
        r.is_initial(),
        r.bottle.wf(),
        r.limits_satisfiable(),
{
    let origin = Pose::at(0, 0);
    let mut grabbables: Vec<Grabbable> = Vec::new();
    grabbables.push(
        Grabbable {
            pose: origin,
            shape: Shape::Rectangle {
                half_width: BOTTLE_BODY_HALF_WIDTH,
                half_height: BOTTLE_BODY_HALF_HEIGHT,
            },
        },
    );
    grabbables.push(
        Grabbable {
            pose: Pose::at(0, NECK_OFFSET),
            shape: Shape::Triangle {
                a: Point { x: 0, y: BOTTLE_NECK_HEIGHT },
                b: Point { x: -BOTTLE_BODY_HALF_WIDTH, y: 0 },
                c: Point { x: BOTTLE_BODY_HALF_WIDTH, y: 0 },
            },
        },
    );
    grabbables.push(
        Grabbable {
            pose: Pose::at(0, CAP_OFFSET),
            shape: Shape::Rectangle {
                half_width: BOTTLE_CAP_HALF_WIDTH,
                half_height: BOTTLE_CAP_HALF_HEIGHT,
            },
        },
    );
    let mut contents: Vec<BottleContent> = Vec::new();
    contents.push(
        BottleContent {
            position: Point { x: 0, y: CONTENT_RADIUS },
            radius: CONTENT_RADIUS,
            density_milli: CONTENT_DENSITY_MILLI,
        },
    );
    contents.push(
        BottleContent {
            position: Point { x: 0, y: -CONTENT_RADIUS },
            radius: CONTENT_RADIUS,
            density_milli: CONTENT_DENSITY_MILLI,
        },
    );
    let lower = CONTENT_LOWER_LIMIT;
    let upper = CONTENT_UPPER_LIMIT;
    let mut content_joints: Vec<BottleContentJoint> = Vec::new();
    content_joints.push(BottleContentJoint { content: 0, lower, upper });
    content_joints.push(BottleContentJoint { content: 1, lower, upper });
    let r = BottleScene {
        anchor: GrabAnchor { position: Point { x: 0, y: 0 } },
        bottle: Bottle { pose: origin, grabbables },
        density_milli: BOTTLE_DENSITY_MILLI,
        angular_damping_milli: BOTTLE_ANGULAR_DAMPING_MILLI,
        contents,
        content_joints,
    };
    assert(r.bottle.grabbables@ =~= initial_scene().1);
    assert(r.contents@ =~= initial_scene().2);
    assert(r.content_joints@ =~= initial_scene().3);
    proof {
        lemma_content_limits_satisfiable(r);
    }
    r
}

} // verus!
