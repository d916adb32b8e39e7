//! Shapes: static meshes of vertices and edge loops.
//!
//! A shape is a fixed set of 3D vertices plus index lists; each list is a
//! closed loop over vertex indices whose consecutive pairs, wraparound
//! last-to-first pair counted, are the rendered edges. Shape data is
//! static: it is validated once at definition time, never per frame.

use crate::point3d::Point3D;
use vstd::prelude::*;

verus! {

/// A shape hands out its static mesh data. A shape kind that defines no
/// mesh answers `None`, which callers treat as a fatal startup error.
pub trait Shape {
    /// The shape's vertices.
    fn vertices() -> Option<Vec<Point3D>> {
        None
    }

    /// The shape's edge loops, as index lists over the vertices.
    fn indices() -> Option<Vec<Vec<usize>>> {
        None
    }
}

/// Every index of every edge loop points at one of the `n` vertices.
pub open spec fn indices_valid(ls: Seq<Seq<usize>>, n: nat) -> bool {
    forall|i: int, j: int|
        0 <= i < ls.len() && 0 <= j < ls[i].len() ==> (#[trigger] ls[i][j]) < n
}

/// The element-wise view of a vector of index lists.
pub proof fn lemma_loops_view(loops: &Vec<Vec<usize>>)
    ensures
        loops.deep_view().len() == loops@.len(),
        forall|i: int| 0 <= i < loops@.len() ==> loops.deep_view()[i] == loops@[i]@,
{
    assert forall|i: int| 0 <= i < loops@.len() implies loops.deep_view()[i] == loops@[i]@ by {
        assert(loops.deep_view()[i] =~= loops@[i]@);
    }
}

/// Check a shape's edge loops against its vertex count. An out-of-range
/// index is a shape author's error; shapes are checked once, at startup,
/// never per frame.
pub fn check_indices(loops: &Vec<Vec<usize>>, n: usize) -> (ok: bool)
    ensures
        ok == indices_valid(loops.deep_view(), n as nat),
{
    proof {
        lemma_loops_view(loops);
    }
    let mut i: usize = 0;
    while i < loops.len()
        invariant
            i <= loops@.len(),
            loops.deep_view().len() == loops@.len(),
            forall|a: int| 0 <= a < loops@.len() ==> loops.deep_view()[a] == loops@[a]@,
            forall|a: int, b: int|
                0 <= a < i && 0 <= b < loops.deep_view()[a].len() ==> (#[trigger] loops.deep_view(
                )[a][b]) < n,
        decreases loops@.len() - i,
    {
        let l = &loops[i];
        let mut j: usize = 0;
        while j < l.len()
            invariant
                j <= l@.len(),
                l@ == loops@[i as int]@,
                i < loops@.len(),
                loops.deep_view().len() == loops@.len(),
                forall|a: int| 0 <= a < loops@.len() ==> loops.deep_view()[a] == loops@[a]@,
                forall|b: int| 0 <= b < j ==> (#[trigger] l@[b]) < n,
            decreases l@.len() - j,
        {
            if l[j] >= n {
                proof {
                    assert(loops.deep_view()[i as int][j as int] >= n);
                }
                return false;
            }
            j = j + 1;
        }
        i = i + 1;
    }
    true
}

} // verus!
