use bottle_flip::geometry::{Point, Pose, Shape, UNIT};
use bottle_flip::scene::{spawn_bottle, CAP_OFFSET, CONTENT_LOWER_LIMIT, CONTENT_UPPER_LIMIT};

#[test]
fn bottle_has_body_neck_and_cap() {
    let scene = spawn_bottle();
    assert_eq!(scene.anchor.position, Point { x: 0, y: 0 });
    assert_eq!(scene.bottle.pose, Pose::at(0, 0));
    let g = &scene.bottle.grabbables;
    assert_eq!(g.len(), 3);
    assert_eq!(g[0].shape, Shape::Rectangle { half_width: 25 * UNIT, half_height: 45 * UNIT });
    assert_eq!(g[1].pose, Pose::at(0, 45 * UNIT));
    assert_eq!(
        g[1].shape,
        Shape::Triangle {
            a: Point { x: 0, y: 30 * UNIT },
            b: Point { x: -25 * UNIT, y: 0 },
            c: Point { x: 25 * UNIT, y: 0 }
        }
    );
    assert_eq!(g[2].pose, Pose::at(0, 70 * UNIT));
    assert_eq!(CAP_OFFSET, 70 * UNIT);
    assert_eq!(g[2].shape, Shape::Rectangle { half_width: 10 * UNIT, half_height: 5 * UNIT });
    assert_eq!(scene.density_milli, 400);
}

#[test]
fn content_limits_hold_the_starting_particles() {
    let scene = spawn_bottle();
    assert_eq!(CONTENT_LOWER_LIMIT, -27 * UNIT);
    assert_eq!(CONTENT_UPPER_LIMIT, 57 * UNIT);
    assert_eq!(scene.contents.len(), 2);
    assert_eq!(scene.contents[0].position, Point { x: 0, y: 18 * UNIT });
    assert_eq!(scene.contents[1].position, Point { x: 0, y: -18 * UNIT });
    assert_eq!(scene.contents[0].density_milli, 4000);
    assert_eq!(scene.content_joints.len(), 2);
    for j in &scene.content_joints {
        let y = scene.contents[j.content].position.y;
        assert!(j.lower <= y && y <= j.upper);
        assert_eq!((j.lower, j.upper), (CONTENT_LOWER_LIMIT, CONTENT_UPPER_LIMIT));
    }
}
