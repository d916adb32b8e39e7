//! The canonical cube: eight vertices and six edge loops — the back and
//! front faces, and the four side edges joining them.

use crate::point3d::Point3D;
use crate::shape::Shape;
use vstd::prelude::*;

verus! {

/// Half the cube's edge length: 0.25 in fixed-point units.
pub const QUARTER: i64 = 16384;

/// The eight cube corners, back face first, 0.25 from the center on
/// every axis.
pub open spec fn cube_vertices() -> Seq<Point3D> {
    let q = QUARTER;
    let m = (-QUARTER) as i64;
    seq![
        Point3D { x: q, y: q, z: q },
        Point3D { x: m, y: q, z: q },
        Point3D { x: m, y: m, z: q },
        Point3D { x: q, y: m, z: q },
        Point3D { x: q, y: q, z: m },
        Point3D { x: m, y: q, z: m },
        Point3D { x: m, y: m, z: m },
        Point3D { x: q, y: m, z: m },
    ]
}

/// The cube's edge loops: back face, front face, and the four joining
/// edges.
pub open spec fn cube_loops() -> Seq<Seq<usize>> {
    seq![
        seq![0usize, 1, 2, 3],
        seq![4usize, 5, 6, 7],
        seq![0usize, 4],
        seq![1usize, 5],
        seq![2usize, 6],
        seq![3usize, 7],
    ]
}

pub struct Cube;

impl Shape for Cube {
    fn vertices() -> (r: Option<Vec<Point3D>>)
        ensures
            r matches Some(vs) && vs@ == cube_vertices(),
    {
        let q: i64 = QUARTER;
        let m: i64 = -QUARTER;
        let vs = vec![
            Point3D::new(q, q, q),
            Point3D::new(m, q, q),
            Point3D::new(m, m, q),
            Point3D::new(q, m, q),
            Point3D::new(q, q, m),
            Point3D::new(m, q, m),
            Point3D::new(m, m, m),
            Point3D::new(q, m, m),
        ];
        proof {
            assert(vs@ =~= cube_vertices());
        }
        Some(vs)
    }

    fn indices() -> (r: Option<Vec<Vec<usize>>>)
        ensures
            r matches Some(ls) && ls.deep_view() == cube_loops(),
    {
        let ls = vec![
            vec![0usize, 1, 2, 3],
            vec![4usize, 5, 6, 7],
            vec![0usize, 4],
            vec![1usize, 5],
            vec![2usize, 6],
            vec![3usize, 7],
        ];
        proof {
            assert(ls.deep_view() =~~= cube_loops());
        }
        Some(ls)
    }
}

} // verus!
