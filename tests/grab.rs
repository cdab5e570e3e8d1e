use bottle_flip::geometry::{Point, Pose, ROT_ONE, UNIT};
use bottle_flip::grab::{
    drag_bottle_using_mouse, drag_bottle_using_touch, grab_bottle_using_mouse,
    grab_bottle_using_touch, handle_restart_button, release_bottle_using_mouse,
    release_bottle_using_touch, resolve_grab, try_grab_bottle, GrabAction, GrabJoint, GrabState,
    Owner, TouchPress, GRAB_ANGULAR_DAMPING,
};
use bottle_flip::scene::{spawn_bottle, Bottle, CAP_OFFSET};

fn pt(x: i64, y: i64) -> Point {
    Point { x, y }
}

fn press(id: u64, x: i64, y: i64) -> TouchPress {
    TouchPress { id, position: Some(pt(x, y)) }
}

fn bottle() -> Bottle {
    spawn_bottle().bottle
}

fn scaled(v: i64) -> i64 {
    v * ROT_ONE
}

#[test]
fn click_inside_body_grabs() {
    let b = bottle();
    let mut s = GrabState::new();
    let a = grab_bottle_using_mouse(&mut s, Some(pt(10 * UNIT, -20 * UNIT)), &b);
    let joint = GrabJoint {
        local_anchor: pt(scaled(10 * UNIT), scaled(-20 * UNIT)),
        angular_damping: GRAB_ANGULAR_DAMPING,
    };
    assert_eq!(a, GrabAction::CreateJoint { joint, anchor: pt(10 * UNIT, -20 * UNIT) });
    assert_eq!(s.owner, Owner::Mouse);
    assert_eq!(s.joint, Some(joint));
    assert_eq!(GRAB_ANGULAR_DAMPING, 20);
}

#[test]
fn click_outside_every_shape_grabs_nothing() {
    let b = bottle();
    let mut s = GrabState::new();
    assert_eq!(grab_bottle_using_mouse(&mut s, Some(pt(26 * UNIT, 0)), &b), GrabAction::Nothing);
    assert_eq!(grab_bottle_using_mouse(&mut s, Some(pt(0, 76 * UNIT)), &b), GrabAction::Nothing);
    assert_eq!(grab_bottle_using_mouse(&mut s, Some(pt(20 * UNIT, 70 * UNIT)), &b), GrabAction::Nothing);
    assert_eq!(grab_bottle_using_mouse(&mut s, None, &b), GrabAction::Nothing);
    assert_eq!(s, GrabState::new());
    assert_eq!(resolve_grab(&b, pt(0, -46 * UNIT)), None);
}

#[test]
fn grab_point_is_in_the_bottle_frame() {
    let mut b = bottle();
    b.pose = Pose { x: 1000, y: 2000, cos: 0, sin: ROT_ONE };
    for g in b.grabbables.iter_mut() {
        g.pose = Pose { x: 1000, y: 2000, cos: 0, sin: ROT_ONE };
    }
    let j = resolve_grab(&b, pt(1000, 2500)).unwrap();
    assert_eq!(j.local_anchor, pt(scaled(500), 0));
    let single = try_grab_bottle(&b.pose, pt(1000, 2500), &b.grabbables[0]).unwrap();
    assert_eq!(single, j);
    assert_eq!(try_grab_bottle(&b.pose, pt(1000, 7000), &b.grabbables[0]), None);
}

#[test]
fn cap_click_drag_and_release() {
    let b = bottle();
    let mut s = GrabState::new();
    let centre = pt(0, CAP_OFFSET);
    match grab_bottle_using_mouse(&mut s, Some(centre), &b) {
        GrabAction::CreateJoint { joint, anchor } => {
            assert_eq!(anchor, centre);
            assert_eq!(joint.local_anchor, pt(0, scaled(70 * UNIT)));
        }
        other => panic!("expected a joint, got {:?}", other),
    }
    let up = pt(0, CAP_OFFSET + 100 * UNIT);
    assert_eq!(drag_bottle_using_mouse(&mut s, Some(up)), GrabAction::MoveAnchor(up));
    assert_eq!(s.anchor, up);
    assert!(s.joint.is_some());
    assert_eq!(release_bottle_using_mouse(&mut s), GrabAction::DestroyJoint);
    assert_eq!(s.owner, Owner::Nobody);
    assert_eq!(s.joint, None);
    assert_eq!(release_bottle_using_mouse(&mut s), GrabAction::Nothing);
}

#[test]
fn second_touch_is_ignored_while_first_holds() {
    let b = bottle();
    let mut s = GrabState::new();
    let presses = vec![press(1, 0, 0), press(2, 0, 10 * UNIT)];
    match grab_bottle_using_touch(&mut s, &presses, &b) {
        GrabAction::CreateJoint { anchor, .. } => assert_eq!(anchor, pt(0, 0)),
        other => panic!("expected a joint, got {:?}", other),
    }
    assert_eq!(s.owner, Owner::Touch(1));
    let before = s;
    assert_eq!(grab_bottle_using_touch(&mut s, &vec![press(2, 0, 10 * UNIT)], &b), GrabAction::Nothing);
    assert_eq!(s, before);
}

#[test]
fn touch_scan_skips_misses_and_stops_without_position() {
    let b = bottle();
    let mut s = GrabState::new();
    let stop = vec![TouchPress { id: 4, position: None }, press(5, 0, 0)];
    assert_eq!(grab_bottle_using_touch(&mut s, &stop, &b), GrabAction::Nothing);
    assert_eq!(s.owner, Owner::Nobody);
    let miss_then_hit = vec![press(6, 90 * UNIT, 0), press(7, 0, 0)];
    grab_bottle_using_touch(&mut s, &miss_then_hit, &b);
    assert_eq!(s.owner, Owner::Touch(7));
}

#[test]
fn touch_end_releases_only_its_owner() {
    let b = bottle();
    let mut s = GrabState::new();
    grab_bottle_using_touch(&mut s, &vec![press(3, 0, 0)], &b);
    let held = s;
    assert_eq!(release_bottle_using_touch(&mut s, 9), GrabAction::Nothing);
    assert_eq!(s, held);
    assert_eq!(release_bottle_using_touch(&mut s, 3), GrabAction::DestroyJoint);
    assert_eq!(s.owner, Owner::Nobody);
    assert_eq!(s.joint, None);
}

#[test]
fn touch_moves_of_the_owner_move_the_anchor() {
    let b = bottle();
    let mut s = GrabState::new();
    grab_bottle_using_touch(&mut s, &vec![press(3, 0, 0)], &b);
    assert_eq!(drag_bottle_using_touch(&mut s, 8, Some(pt(50, 50))), GrabAction::Nothing);
    assert_eq!(s.anchor, pt(0, 0));
    assert_eq!(drag_bottle_using_touch(&mut s, 3, Some(pt(50, 60))), GrabAction::MoveAnchor(pt(50, 60)));
    drag_bottle_using_touch(&mut s, 3, Some(pt(70, 80)));
    assert_eq!(s.anchor, pt(70, 80));
    assert_eq!(drag_bottle_using_touch(&mut s, 3, None), GrabAction::Nothing);
    assert_eq!(drag_bottle_using_mouse(&mut s, Some(pt(1, 1))), GrabAction::Nothing);
    assert_eq!(s.anchor, pt(70, 80));
}

#[test]
fn mouse_cannot_grab_while_a_touch_holds() {
    let b = bottle();
    let mut s = GrabState::new();
    grab_bottle_using_touch(&mut s, &vec![press(3, 0, 0)], &b);
    let held = s;
    assert_eq!(grab_bottle_using_mouse(&mut s, Some(pt(0, 0)), &b), GrabAction::Nothing);
    assert_eq!(s, held);
}

#[test]
fn restart_drops_the_grab() {
    let b = bottle();
    let mut s = GrabState::new();
    grab_bottle_using_mouse(&mut s, Some(pt(0, 100)), &b);
    assert!(handle_restart_button(&mut s, false).is_none());
    assert_eq!(s.owner, Owner::Mouse);
    let scene = handle_restart_button(&mut s, true).unwrap();
    assert_eq!(s, GrabState::new());
    assert_eq!(scene.bottle.grabbables.len(), 3);
}
