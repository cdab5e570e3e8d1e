//! Who holds the grab, and what each pointer event does to it.
//!
//! One record, `GrabState`, holds the owner (nobody, the mouse, or one
//! touch), the grab joint that exists exactly while someone holds the
//! bottle, and the anchor's position. Mouse and touch presses go through
//! one arbitration point, `GrabState::press`, so a second pointer can never
//! make a second joint.
use crate::geometry::{
    abs, contains_point, local_x, local_y, shape_contains, to_local, Point, Pose, Shape,
    ROT_ONE,
};
use crate::scene::{spawn_bottle, Bottle, BottleScene, Grabbable};
use vstd::prelude::*;

verus! {

/// Angular velocity damping of every grab joint.
pub const GRAB_ANGULAR_DAMPING: i64 = 20;

/// The input source that holds the grab.
#[derive(Clone, Copy, Debug, PartialEq, Eq, Structural)]
pub enum Owner {
    Nobody,
    Mouse,
    Touch(u64),
}

/// A revolute joint between the anchor and the container.
/// `local_anchor` is the grab point in the container's own frame, each
/// coordinate times `ROT_ONE`.
#[derive(Clone, Copy, Debug, PartialEq, Eq, Structural)]
pub struct GrabJoint {
    pub local_anchor: Point,
    pub angular_damping: i64,
}

/// What the physics world has to do after an event.
#[derive(Clone, Copy, Debug, PartialEq, Eq, Structural)]
pub enum GrabAction {
    Nothing,
    /// Put the anchor at `anchor`, then create `joint`.
    CreateJoint { joint: GrabJoint, anchor: Point },
    MoveAnchor(Point),
    DestroyJoint,
}

/// A touch that was just pressed; `position` is `None` where it has no
/// world position.
#[derive(Clone, Copy, Debug, PartialEq, Eq, Structural)]
pub struct TouchPress {
    pub id: u64,
    pub position: Option<Point>,
}

#[derive(Clone, Copy, Debug, PartialEq, Eq, Structural)]
pub struct GrabState {
    pub owner: Owner,
    pub joint: Option<GrabJoint>,
    pub anchor: Point,
}

/// Whether `p` lies in one of the bottle's grabbable colliders.
pub open spec fn hits(bottle: Bottle, p: Point) -> bool {
    exists|i: int|
        0 <= i < bottle.grabbables@.len() && #[trigger] shape_contains(
            bottle.grabbables@[i].shape,
            bottle.grabbables@[i].pose,
            p,
        )
}

/// The joint made by grabbing the container placed at `pose` at `p`.
pub open spec fn joint_for(pose: Pose, p: Point) -> GrabJoint {
    GrabJoint {
        local_anchor: Point { x: local_x(pose, p) as i64, y: local_y(pose, p) as i64 },
        angular_damping: GRAB_ANGULAR_DAMPING,
    }
}

/// The state after a grab at `p` by `source`.
pub open spec fn held_at(source: Owner, pose: Pose, p: Point) -> GrabState {
    GrabState { owner: source, joint: Some(joint_for(pose, p)), anchor: p }
}

/// A press at `p` by `source`: it grabs only when nobody holds the bottle
/// and `p` hits it.
pub open spec fn after_press(s: GrabState, source: Owner, p: Point, bottle: Bottle) -> GrabState {
    if s.owner == Owner::Nobody && hits(bottle, p) {
        held_at(source, bottle.pose, p)
    } else {
        s
    }
}

/// Of the touches just pressed, in order, the first that hits the bottle;
/// the scan stops at a touch without a world position.
pub open spec fn first_touch_hit(presses: Seq<TouchPress>, bottle: Bottle) -> Option<(u64, Point)>
    decreases presses.len(),
{
    if presses.len() == 0 {
        None
    } else {
        match presses[0].position {
            None => None,
            Some(p) => if hits(bottle, p) {
                Some((presses[0].id, p))
            } else {
                first_touch_hit(presses.drop_first(), bottle)
            },
        }
    }
}

pub open spec fn after_touch_presses(s: GrabState, presses: Seq<TouchPress>, bottle: Bottle) -> GrabState {
    if s.owner != Owner::Nobody {
        s
    } else {
        match first_touch_hit(presses, bottle) {
            None => s,
            Some((id, p)) => held_at(Owner::Touch(id), bottle.pose, p),
        }
    }
}

/// Every frame the mouse cursor moves the anchor, unless a touch holds it.
pub open spec fn after_mouse_move(s: GrabState, cursor: Option<Point>) -> GrabState {
    match (cursor, s.owner) {
        (Some(p), Owner::Nobody) => GrabState { anchor: p, ..s },
        (Some(p), Owner::Mouse) => GrabState { anchor: p, ..s },
        _ => s,
    }
}

/// A move of touch `id` moves the anchor when that touch holds the grab.
pub open spec fn after_touch_move(s: GrabState, id: u64, position: Option<Point>) -> GrabState {
    match position {
        Some(p) => if s.owner == Owner::Touch(id) {
            GrabState { anchor: p, ..s }
        } else {
            s
        },
        None => s,
    }
}

pub open spec fn released(s: GrabState) -> GrabState {
    GrabState { owner: Owner::Nobody, joint: None, anchor: s.anchor }
}

/// Releasing the mouse button destroys any grab joint.
pub open spec fn after_mouse_release(s: GrabState) -> GrabState {
    released(s)
}

/// The end or cancel of touch `id` releases the grab when that touch holds it.
pub open spec fn after_touch_end(s: GrabState, id: u64) -> GrabState {
    if s.owner == Owner::Touch(id) {
        released(s)
    } else {
        s
    }
}

/// The action that takes the physics world from `s` to `t`.
pub open spec fn action_between(s: GrabState, t: GrabState) -> GrabAction {
    if t.joint != s.joint && t.joint.is_some() {
        GrabAction::CreateJoint { joint: t.joint.unwrap(), anchor: t.anchor }
    } else if t.joint != s.joint {
        GrabAction::DestroyJoint
    } else if t.anchor != s.anchor {
        GrabAction::MoveAnchor(t.anchor)
    } else {
        GrabAction::Nothing
    }
}

impl GrabState {
    /// A joint exists exactly while someone holds the grab.
    pub open spec fn wf(&self) -> bool {
        self.joint.is_some() <==> self.owner != Owner::Nobody
    }

    pub fn new() -> (r: GrabState)
        ensures
            r == (GrabState { owner: Owner::Nobody, joint: None, anchor: Point { x: 0, y: 0 } }),
            r.wf(),
    {
        GrabState { owner: Owner::Nobody, joint: None, anchor: Point { x: 0, y: 0 } }
    }

    /// The one arbitration point for presses of every source.
    pub fn press(&mut self, source: Owner, p: Point, bottle: &Bottle) -> (r: GrabAction)
        requires
            old(self).wf(),
            source != Owner::Nobody,
            p.wf(),
            bottle.wf(),
        ensures
            *final(self) == after_press(*old(self), source, p, *bottle),
            final(self).wf(),
            r == action_between(*old(self), *final(self)),
    {
        if self.owner != Owner::Nobody {
            return GrabAction::Nothing;
        }
        match resolve_grab(bottle, p) {
            Some(joint) => {
                self.owner = source;
                self.joint = Some(joint);
                self.anchor = p;
                GrabAction::CreateJoint { joint, anchor: p }
            },
            None => GrabAction::Nothing,
        }
    }

    fn release(&mut self) -> (r: GrabAction)
        ensures
            *final(self) == released(*old(self)),
            r == action_between(*old(self), *final(self)),
    {
        let had_joint = self.joint.is_some();
        self.owner = Owner::Nobody;
        self.joint = None;
        if had_joint {
            GrabAction::DestroyJoint
        } else {
            GrabAction::Nothing
        }
    }
}

/// Tests one grabbable collider: where `point` lies in it, the joint that
/// holds the container placed at `bottle_pose` at that point.
pub fn try_grab_bottle(
    bottle_pose: &Pose,
    point: Point,
    grabbable: &Grabbable,
) -> (r: Option<GrabJoint>)
    requires
        bottle_pose.wf(),
        point.wf(),
        grabbable.pose.wf(),
        grabbable.shape.wf(),
    ensures
        r == (if shape_contains(grabbable.shape, grabbable.pose, point) {
            Some(joint_for(*bottle_pose, point))
        } else {
            None
        }),
{
    if contains_point(&grabbable.shape, &grabbable.pose, point) {
        let (lx, ly) = to_local(bottle_pose, point);
        Some(
            GrabJoint {
                local_anchor: Point { x: lx as i64, y: ly as i64 },
                angular_damping: GRAB_ANGULAR_DAMPING,
            },
        )
    } else {
        None
    }
}

/// Tries the bottle's grabbable colliders in order; the first that holds
/// `point` decides.
pub fn resolve_grab(bottle: &Bottle, point: Point) -> (r: Option<GrabJoint>)
    requires
        bottle.wf(),
        point.wf(),
    ensures
        r == (if hits(*bottle, point) {
            Some(joint_for(bottle.pose, point))
        } else {
            None
        }),
{
    let n = bottle.grabbables.len();
    let mut i: usize = 0;
    while i < n
        invariant
            n == bottle.grabbables@.len(),
            0 <= i <= n,
            bottle.wf(),
            point.wf(),
            forall|k: int|
                0 <= k < i ==> !#[trigger] shape_contains(
                    bottle.grabbables@[k].shape,
                    bottle.grabbables@[k].pose,
                    point,
                ),
        decreases n - i,
    {
        let g = &bottle.grabbables[i];
        assert(g.pose.wf() && g.shape.wf()) by {
            assert(bottle.grabbables@[i as int] == *g);
        }
        let found = try_grab_bottle(&bottle.pose, point, g);
        if found.is_some() {
            return found;
        }
        i = i + 1;
    }
    None
}

/// A press of the primary mouse button at `cursor`.
pub fn grab_bottle_using_mouse(
    state: &mut GrabState,
    cursor: Option<Point>,
    bottle: &Bottle,
) -> (r: GrabAction)
    requires
        old(state).wf(),
        bottle.wf(),
        (cursor matches Some(p) ==> p.wf()),
    ensures
        *final(state) == (match cursor {
            Some(p) => after_press(*old(state), Owner::Mouse, p, *bottle),
            None => *old(state),
        }),
        final(state).wf(),
        r == action_between(*old(state), *final(state)),
{
    match cursor {
        Some(p) => state.press(Owner::Mouse, p, bottle),
        None => GrabAction::Nothing,
    }
}

/// The touches pressed in one frame, in order.
pub fn grab_bottle_using_touch(
    state: &mut GrabState,
    presses: &Vec<TouchPress>,
    bottle: &Bottle,
) -> (r: GrabAction)
    requires
        old(state).wf(),
        bottle.wf(),
        forall|i: int|
            0 <= i < presses@.len() ==> ((#[trigger] presses@[i]).position matches Some(p) ==> p.wf()),
    ensures
        *final(state) == after_touch_presses(*old(state), presses@, *bottle),
        final(state).wf(),
        r == action_between(*old(state), *final(state)),
{
    if state.owner != Owner::Nobody {
        return GrabAction::Nothing;
    }
    let n = presses.len();
    let mut i: usize = 0;
    assert(presses@.subrange(0, n as int) =~= presses@);
    while i < n
        invariant
            n == presses@.len(),
            0 <= i <= n,
            *state == *old(state),
            state.owner == Owner::Nobody,
            state.wf(),
            bottle.wf(),
            forall|k: int|
                0 <= k < presses@.len() ==> ((#[trigger] presses@[k]).position matches Some(p)
                    ==> p.wf()),
            first_touch_hit(presses@.subrange(i as int, n as int), *bottle) == first_touch_hit(
                presses@,
                *bottle,
            ),
        decreases n - i,
    {
        let t = presses[i];
        let ghost rest = presses@.subrange(i as int, n as int);
        assert(rest[0] == t);
        assert(rest.drop_first() =~= presses@.subrange(i + 1, n as int));
        match t.position {
            None => {
                return GrabAction::Nothing;
            },
            Some(p) => {
                assert(p.wf()) by {
                    assert(presses@[i as int] == t);
                }
                let action = state.press(Owner::Touch(t.id), p, bottle);
                if state.owner != Owner::Nobody {
                    return action;
                }
            },
        }
        i = i + 1;
    }
    assert(presses@.subrange(n as int, n as int).len() == 0);
    GrabAction::Nothing
}

/// Each frame: the anchor follows the mouse cursor, unless a touch holds it.
pub fn drag_bottle_using_mouse(state: &mut GrabState, cursor: Option<Point>) -> (r: GrabAction)
    requires
        old(state).wf(),
    ensures
        *final(state) == after_mouse_move(*old(state), cursor),
        final(state).wf(),
        r == action_between(*old(state), *final(state)),
{
    match (cursor, state.owner) {
        (Some(p), Owner::Nobody) | (Some(p), Owner::Mouse) => {
            if p == state.anchor {
                GrabAction::Nothing
            } else {
                state.anchor = p;
                GrabAction::MoveAnchor(p)
            }
        },
        _ => GrabAction::Nothing,
    }
}

/// A move event of touch `id`.
pub fn drag_bottle_using_touch(
    state: &mut GrabState,
    id: u64,
    position: Option<Point>,
) -> (r: GrabAction)
    requires
        old(state).wf(),
    ensures
        *final(state) == after_touch_move(*old(state), id, position),
        final(state).wf(),
        r == action_between(*old(state), *final(state)),
{
    match position {
        Some(p) => {
            if state.owner == Owner::Touch(id) && p != state.anchor {
                state.anchor = p;
                GrabAction::MoveAnchor(p)
            } else {
                GrabAction::Nothing
            }
        },
        None => GrabAction::Nothing,
    }
}

/// The primary mouse button was released. This destroys any grab joint,
/// whoever holds it, and clears the owner with it, so that a joint still
/// exists exactly while someone holds the grab.
pub fn release_bottle_using_mouse(state: &mut GrabState) -> (r: GrabAction)
    requires
        old(state).wf(),
    ensures
        *final(state) == after_mouse_release(*old(state)),
        final(state).wf(),
        r == action_between(*old(state), *final(state)),
{
    state.release()
}

/// Touch `id` ended or was cancelled.
pub fn release_bottle_using_touch(state: &mut GrabState, id: u64) -> (r: GrabAction)
    requires
        old(state).wf(),
    ensures
        *final(state) == after_touch_end(*old(state), id),
        final(state).wf(),
        r == action_between(*old(state), *final(state)),
{
    if state.owner == Owner::Touch(id) {
        state.release()
    } else {
        GrabAction::Nothing
    }
}

/// When the restart button was pressed: the grab is dropped whoever held
/// it, and the bottle, its contents and the anchor are built anew.
pub fn handle_restart_button(state: &mut GrabState, pressed: bool) -> (r: Option<BottleScene>)
    requires
        old(state).wf(),
    ensures
        pressed ==> r is Some && r->Some_0.is_initial() && r->Some_0.bottle.wf()
            && *final(state) == (GrabState {
            owner: Owner::Nobody,
            joint: None,
            anchor: r->Some_0.anchor.position,
        }),
        !pressed ==> r is None && *final(state) == *old(state),
        final(state).wf(),
{
    if pressed {
        let scene = spawn_bottle();
        *state = GrabState { owner: Owner::Nobody, joint: None, anchor: scene.anchor.position };
        Some(scene)
    } else {
        None
    }
}

/// A point strictly inside an unrotated rectangular grabbable collider of
/// the bottle is grabbed by a press when nobody holds the bottle: the press
/// gives the grab to its source, and exactly one joint exists afterwards.
pub proof fn lemma_press_inside_rectangle_grabs(
    s: GrabState,
    source: Owner,
    bottle: Bottle,
    i: int,
    p: Point,
)
    requires
        s.wf(),
        s.owner == Owner::Nobody,
        source != Owner::Nobody,
        bottle.wf(),
        p.wf(),
        0 <= i < bottle.grabbables@.len(),
        bottle.grabbables@[i].pose.is_unrotated(),
        bottle.grabbables@[i].shape matches Shape::Rectangle { half_width, half_height } && abs(
            p.x - bottle.grabbables@[i].pose.x,
        ) < half_width && abs(p.y - bottle.grabbables@[i].pose.y) < half_height,
    ensures
        hits(bottle, p),
        after_press(s, source, p, bottle) == held_at(source, bottle.pose, p),
        after_press(s, source, p, bottle).joint == Some(joint_for(bottle.pose, p)),
        after_press(s, source, p, bottle).wf(),
{
    let g = bottle.grabbables@[i];
    let dx = p.x - g.pose.x;
    let dy = p.y - g.pose.y;
    assert(local_x(g.pose, p) == ROT_ONE * dx);
    assert(local_y(g.pose, p) == ROT_ONE * dy);
    if let Shape::Rectangle { half_width, half_height } = g.shape {
        assert(abs(ROT_ONE * dx) <= half_width * ROT_ONE) by (nonlinear_arith)
            requires
                abs(dx) < half_width,
                ROT_ONE == 65536,
        ;
        assert(abs(ROT_ONE * dy) <= half_height * ROT_ONE) by (nonlinear_arith)
            requires
                abs(dy) < half_height,
                ROT_ONE == 65536,
        ;
    }
    assert(shape_contains(g.shape, g.pose, p));
}

/// A point outside every grabbable collider of the bottle grabs nothing:
/// a press there leaves the state, and so the joints, as they were.
pub proof fn lemma_press_outside_grabs_nothing(s: GrabState, source: Owner, bottle: Bottle, p: Point)
    requires
        forall|i: int|
            0 <= i < bottle.grabbables@.len() ==> !#[trigger] shape_contains(
                bottle.grabbables@[i].shape,
                bottle.grabbables@[i].pose,
                p,
            ),
    ensures
        !hits(bottle, p),
        after_press(s, source, p, bottle) == s,
{
}

/// Touch presses of which none lies on the bottle grab nothing.
pub proof fn lemma_touches_outside_grab_nothing(s: GrabState, presses: Seq<TouchPress>, bottle: Bottle)
    requires
        forall|k: int|
            0 <= k < presses.len() ==> ((#[trigger] presses[k]).position matches Some(p) ==> !hits(
                bottle,
                p,
            )),
    ensures
        first_touch_hit(presses, bottle) is None,
        after_touch_presses(s, presses, bottle) == s,
    decreases presses.len(),
{
    if presses.len() > 0 {
        let rest = presses.drop_first();
        assert forall|k: int|
            0 <= k < rest.len() implies ((#[trigger] rest[k]).position matches Some(p) ==> !hits(
                bottle,
                p,
            )) by {
            assert(rest[k] == presses[k + 1]);
        }
        lemma_touches_outside_grab_nothing(s, rest, bottle);
        assert(presses[0] == presses[0]);
    }
}

/// A touch that grabbed the bottle and then ends (or is cancelled) leaves
/// no joint and nobody holding the grab.
pub proof fn lemma_touch_grab_then_end(s: GrabState, presses: Seq<TouchPress>, bottle: Bottle)
    requires
        s.wf(),
        s.owner == Owner::Nobody,
        first_touch_hit(presses, bottle) is Some,
    ensures
        ({
            let id = first_touch_hit(presses, bottle)->Some_0.0;
            let held = after_touch_presses(s, presses, bottle);
            &&& held.owner == Owner::Touch(id)
            &&& held.joint is Some
            &&& after_touch_end(held, id).joint is None
            &&& after_touch_end(held, id).owner == Owner::Nobody
            &&& after_touch_end(held, id).wf()
        }),
{
}

/// The end or cancel of a touch that does not hold the grab changes
/// nothing: the joint stays and so does the owner.
pub proof fn lemma_other_touch_end_ignored(s: GrabState, owner_id: u64, id: u64)
    requires
        s.wf(),
        s.owner == Owner::Touch(owner_id),
        id != owner_id,
    ensures
        after_touch_end(s, id) == s,
        after_touch_end(s, id).joint is Some,
{
}

/// While a pointer holds the grab, the anchor stands exactly at the last
/// position that pointer supplied: at the press that grabbed, and after
/// each of its moves; the joint is kept meanwhile.
pub proof fn lemma_anchor_follows_holder(s: GrabState, bottle: Bottle, id: u64, p: Point, q: Point)
    requires
        s.wf(),
    ensures
        s.owner == Owner::Nobody && hits(bottle, p) ==> after_press(
            s,
            Owner::Touch(id),
            p,
            bottle,
        ).anchor == p,
        s.owner == Owner::Nobody && hits(bottle, p) ==> after_press(
            s,
            Owner::Mouse,
            p,
            bottle,
        ).anchor == p,
        s.owner == Owner::Touch(id) ==> after_touch_move(s, id, Some(q)).anchor == q
            && after_touch_move(s, id, Some(q)).joint == s.joint,
        s.owner == Owner::Mouse ==> after_mouse_move(s, Some(q)).anchor == q && after_mouse_move(
            s,
            Some(q),
        ).joint == s.joint,
        s.owner == Owner::Touch(id) ==> after_mouse_move(s, Some(q)) == s,
{
}

/// Of two touches pressed while nobody holds the bottle, both on it, the
/// first gets the grab; a later press of the second changes nothing.
pub proof fn lemma_first_touch_wins(s: GrabState, a: TouchPress, b: TouchPress, bottle: Bottle)
    requires
        s.wf(),
        s.owner == Owner::Nobody,
        a.position matches Some(pa) && hits(bottle, pa),
        b.position matches Some(pb) && hits(bottle, pb),
    ensures
        after_touch_presses(s, seq![a, b], bottle).owner == Owner::Touch(a.id),
        after_touch_presses(s, seq![a], bottle).owner == Owner::Touch(a.id),
        after_touch_presses(after_touch_presses(s, seq![a], bottle), seq![b], bottle)
            == after_touch_presses(s, seq![a], bottle),
{
    assert(seq![a, b][0] == a);
    assert(seq![a][0] == a);
}

} // verus!
