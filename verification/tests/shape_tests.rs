use wireframe::anim::AnimState;
use wireframe::color::{get_color, CHANNEL_MAX};
use wireframe::constants::{CANVAS_HEIGHT, CANVAS_WIDTH, FPS, FRAME_TIME};
use wireframe::cube::{Cube, QUARTER};
use wireframe::point3d::Point3D;
use wireframe::shape::Shape;

#[test]
fn cube_vertices_are_the_eight_corners() {
    let vs = Cube::vertices().expect("no vertices");
    let q = QUARTER;
    assert_eq!(
        vs,
        vec![
            Point3D::new(q, q, q),
            Point3D::new(-q, q, q),
            Point3D::new(-q, -q, q),
            Point3D::new(q, -q, q),
            Point3D::new(q, q, -q),
            Point3D::new(-q, q, -q),
            Point3D::new(-q, -q, -q),
            Point3D::new(q, -q, -q),
        ]
    );
}

#[test]
fn cube_loops_are_faces_and_joining_edges() {
    let ls = Cube::indices().expect("no indices");
    assert_eq!(
        ls,
        vec![
            vec![0, 1, 2, 3],
            vec![4, 5, 6, 7],
            vec![0, 4],
            vec![1, 5],
            vec![2, 6],
            vec![3, 7],
        ]
    );
}

struct Stub;

impl Shape for Stub {
}

#[test]
fn shape_without_data_answers_none() {
    // A shape kind that defines no mesh: fatal at startup for callers.
    assert!(Stub::vertices().is_none());
    assert!(Stub::indices().is_none());
}

#[test]
fn chosen_color_is_opaque() {
    let c = get_color();
    assert_eq!(c.a, CHANNEL_MAX);
}

#[test]
fn tick_advances_angle_and_holds_depth() {
    let mut state = AnimState::start(7);
    assert_eq!(state.angle, 0);
    assert_eq!(state.dz, 7);
    state.tick(25);
    state.tick(25);
    assert_eq!(state.angle, 50);
    assert_eq!(state.dz, 7);
    state.tick(-50);
    assert_eq!(state.angle, 0);
}

#[test]
fn frame_cadence_constants() {
    // Sixty frames per second, a fixed delay of one sixtieth of a
    // second between ticks, on an 800 by 800 canvas.
    assert_eq!(FPS, 60);
    assert_eq!(FRAME_TIME, 1_000_000_000 / 60);
    assert_eq!(CANVAS_WIDTH, 800);
    assert_eq!(CANVAS_HEIGHT, 800);
}
