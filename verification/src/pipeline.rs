//! The per-vertex transform pipeline.
//!
//! One frame's transform is an ordered composition: rotate about x, then
//! y, then z, then translate, then project, then map to the screen. Each
//! vertex is independent of every other, so the whole vertex set may be
//! transformed in parallel; the results equal the sequential ones
//! element for element.

use crate::fixed::{mag, SCALE};
use crate::point2d::{screened, Point2D};
use crate::point3d::{
    lemma_projected_bounded, lemma_rotation_pair_bounded, projected, projected_ortho, rotated_x,
    rotated_y, rotated_z, rotor_ok, translated_x, translated_y, translated_z, Point3D,
};
use rayon::iter::{IntoParallelRefIterator, ParallelIterator};
use vstd::prelude::*;

verus! {

/// A rotation's cosine and sine as fixed-point scalars: a zero turn is
/// `(SCALE, 0)` and a quarter turn is `(0, SCALE)`.
#[derive(Clone, Copy, PartialEq, Eq, Structural, Debug)]
pub struct Rotor {
    pub c: i64,
    pub s: i64,
}

impl Rotor {
    /// The rotor of angle zero: it leaves every point unchanged.
    pub fn identity() -> (r: Rotor)
        ensures
            r.c == SCALE,
            r.s == 0,
    {
        Rotor { c: SCALE, s: 0 }
    }
}

/// Which projection closes the pipeline: perspective division by depth,
/// or the orthographic drop of the depth.
#[derive(Clone, Copy, PartialEq, Eq, Structural, Debug)]
pub enum Projection {
    Perspective,
    Orthographic,
}

/// One frame's transform parameters.
#[derive(Clone, Copy, PartialEq, Eq, Structural, Debug)]
pub struct PipelineConfig {
    pub rot_x: Rotor,
    pub rot_y: Rotor,
    pub rot_z: Rotor,
    pub dx: i64,
    pub dy: i64,
    pub dz: i64,
    pub projection: Projection,
}

/// Coordinates and translations this large never overflow anywhere in
/// the pipeline: 65536 world units.
pub const COORD_LIMIT: i64 = 0x1_0000_0000;

/// A pipeline configuration is admissible when each rotor's scalars have
/// magnitude at most `SCALE` and each translation stays within
/// `COORD_LIMIT`.
pub open spec fn config_ok(cfg: PipelineConfig) -> bool {
    &&& rotor_ok(cfg.rot_x.c as int, cfg.rot_x.s as int)
    &&& rotor_ok(cfg.rot_y.c as int, cfg.rot_y.s as int)
    &&& rotor_ok(cfg.rot_z.c as int, cfg.rot_z.s as int)
    &&& mag(cfg.dx as int) <= COORD_LIMIT
    &&& mag(cfg.dy as int) <= COORD_LIMIT
    &&& mag(cfg.dz as int) <= COORD_LIMIT
}

/// A vertex is admissible when each coordinate stays within
/// `COORD_LIMIT`.
pub open spec fn vertex_ok(p: Point3D) -> bool {
    &&& mag(p.x as int) <= COORD_LIMIT
    &&& mag(p.y as int) <= COORD_LIMIT
    &&& mag(p.z as int) <= COORD_LIMIT
}

/// The world-space part of the pipeline: the three axis rotations in
/// x, y, z order — each one working on the coordinates the previous one
/// produced — then the translation.
pub open spec fn world_transformed(v: (int, int, int), cfg: PipelineConfig) -> (int, int, int) {
    translated_z(
        translated_y(
            translated_x(
                rotated_z(
                    rotated_y(
                        rotated_x(v, cfg.rot_x.c as int, cfg.rot_x.s as int),
                        cfg.rot_y.c as int,
                        cfg.rot_y.s as int,
                    ),
                    cfg.rot_z.c as int,
                    cfg.rot_z.s as int,
                ),
                cfg.dx as int,
            ),
            cfg.dy as int,
        ),
        cfg.dz as int,
    )
}

/// The whole pipeline: world transform, then the configured projection,
/// then the centered screen map.
pub open spec fn transformed(v: (int, int, int), cfg: PipelineConfig) -> (int, int) {
    let w = world_transformed(v, cfg);
    match cfg.projection {
        Projection::Perspective => screened(projected(w)),
        Projection::Orthographic => screened(projected_ortho(w)),
    }
}

/// Run one vertex through the whole pipeline.
pub fn transform_vertex(v: &Point3D, cfg: &PipelineConfig) -> (r: Point2D)
    requires
        vertex_ok(*v),
        config_ok(*cfg),
    ensures
        r@ == transformed(v@, *cfg),
{
    let p1 = v.rotate_x(cfg.rot_x.c, cfg.rot_x.s);
    proof {
        lemma_rotation_pair_bounded(
            v@.1,
            v@.2,
            cfg.rot_x.c as int,
            cfg.rot_x.s as int,
            0x1_0000_0000,
            0x1_0000_0000,
        );
    }
    let p2 = p1.rotate_y(cfg.rot_y.c, cfg.rot_y.s);
    proof {
        lemma_rotation_pair_bounded(
            p1@.0,
            p1@.2,
            cfg.rot_y.c as int,
            cfg.rot_y.s as int,
            0x1_0000_0000,
            0x2_0000_0000,
        );
    }
    let p3 = p2.rotate_z(cfg.rot_z.c, cfg.rot_z.s);
    proof {
        lemma_rotation_pair_bounded(
            p2@.0,
            p2@.1,
            cfg.rot_z.c as int,
            cfg.rot_z.s as int,
            0x3_0000_0000,
            0x2_0000_0000,
        );
    }
    let t = p3.translate_x(cfg.dx).translate_y(cfg.dy).translate_z(cfg.dz);
    match cfg.projection {
        Projection::Perspective => {
            proof {
                if t.z != 0 {
                    lemma_projected_bounded(t@.0, t@.2, 0x6_0000_0000);
                    lemma_projected_bounded(t@.1, t@.2, 0x6_0000_0000);
                }
            }
            let p = t.project();
            p.screen()
        },
        Projection::Orthographic => {
            let p = t.project_ortho();
            p.screen()
        },
    }
}

/// Run every vertex through the pipeline, in order, one at a time.
pub fn transform_points(vs: &Vec<Point3D>, cfg: &PipelineConfig) -> (out: Vec<Point2D>)
    requires
        config_ok(*cfg),
        forall|i: int| 0 <= i < vs@.len() ==> vertex_ok(#[trigger] vs@[i]),
    ensures
        out@.len() == vs@.len(),
        forall|i: int| 0 <= i < vs@.len() ==> (#[trigger] out@[i])@ == transformed(vs@[i]@, *cfg),
{
    let mut out: Vec<Point2D> = Vec::new();
    let mut i: usize = 0;
    while i < vs.len()
        invariant
            i <= vs@.len(),
            out@.len() == i,
            config_ok(*cfg),
            forall|k: int| 0 <= k < vs@.len() ==> vertex_ok(#[trigger] vs@[k]),
            forall|k: int| 0 <= k < i ==> (#[trigger] out@[k])@ == transformed(vs@[k]@, *cfg),
        decreases vs@.len() - i,
    {
        let p = transform_vertex(&vs[i], cfg);
        out.push(p);
        i = i + 1;
    }
    out
}

/// Run every vertex through the pipeline across a worker pool. Relies on
/// rayon: `par_iter().map(f).collect()` over a vector applies `f` to
/// every element and collects one result per element in the input's
/// order, so the output equals the sequential transform element for
/// element.
#[verifier::external_body]
pub fn transform_all(vs: &Vec<Point3D>, cfg: &PipelineConfig) -> (out: Vec<Point2D>)
    requires
        config_ok(*cfg),
        forall|i: int| 0 <= i < vs@.len() ==> vertex_ok(#[trigger] vs@[i]),
    ensures
        out@.len() == vs@.len(),
        forall|i: int| 0 <= i < vs@.len() ==> (#[trigger] out@[i])@ == transformed(vs@[i]@, *cfg),
{
    vs.par_iter().map(|p| transform_vertex(p, cfg)).collect()
}

} // verus!
