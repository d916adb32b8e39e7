use wireframe::cube::Cube;
use wireframe::fixed::SCALE;
use wireframe::pipeline::{
    transform_all, transform_points, transform_vertex, PipelineConfig, Projection, Rotor,
};
use wireframe::point2d::Point2D;
use wireframe::point3d::Point3D;
use wireframe::shape::Shape;

fn perspective_config(dz: i64) -> PipelineConfig {
    PipelineConfig {
        rot_x: Rotor::identity(),
        rot_y: Rotor::identity(),
        rot_z: Rotor::identity(),
        dx: 0,
        dy: 0,
        dz,
        projection: Projection::Perspective,
    }
}

#[test]
fn perspective_foreshortens_the_cube() {
    // The corner (0.25, 0.25, 0.25) pushed to depth 1.25 projects to
    // (0.2, 0.2) and lands 80 pixels from the center.
    let v = Point3D::new(16384, 16384, 16384);
    let cfg = perspective_config(SCALE);
    let p = transform_vertex(&v, &cfg);
    assert_eq!(p, Point2D::new(5242800, 5242800));
}

#[test]
fn quarter_turn_about_y_swaps_axes() {
    let mut cfg = perspective_config(0);
    cfg.projection = Projection::Orthographic;
    cfg.rot_y = Rotor { c: 0, s: SCALE };
    // The unit x vector rotates onto the z axis, so on screen it falls
    // onto the origin.
    let p = transform_vertex(&Point3D::new(SCALE, 0, 0), &cfg);
    assert_eq!(p, Point2D::new(0, 0));
    // The unit z vector rotates onto the negative x axis: 400 pixels
    // left of the center.
    let q = transform_vertex(&Point3D::new(0, 0, SCALE), &cfg);
    assert_eq!(q, Point2D::new(-400 * SCALE, 0));
}

#[test]
fn parallel_transform_matches_sequential() {
    let vs = Cube::vertices().expect("no vertices");
    let mut cfg = perspective_config(2 * SCALE);
    cfg.rot_y = Rotor { c: 46341, s: 46341 };
    cfg.rot_x = Rotor { c: 0, s: SCALE };
    let par = transform_all(&vs, &cfg);
    let seq = transform_points(&vs, &cfg);
    assert_eq!(par, seq);
    assert_eq!(par.len(), vs.len());
}

#[test]
fn parallel_transform_really_transforms() {
    // With a pure depth translation and perspective, the corner
    // (0.25, 0.25, 0.25) lands at 0.2 of a unit: 80 pixels out.
    let vs = Cube::vertices().expect("no vertices");
    let cfg = perspective_config(SCALE);
    let out = transform_all(&vs, &cfg);
    assert_eq!(out[0], Point2D::new(5242800, 5242800));
}
