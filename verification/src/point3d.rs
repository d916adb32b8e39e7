//! World-space points and the transform primitives.
//!
//! Every transform returns a new point; the methods chain left to right,
//! and composing rotations in a different order gives a different result.
//! A rotation is driven by the cosine and sine of its angle, handed in as
//! fixed-point scalars with magnitude at most `SCALE`, so a quarter turn
//! is the exact pair `(0, SCALE)` and a zero turn is `(SCALE, 0)`.

use crate::fixed::{
    div_trunc, lemma_mul_bounds, lemma_quot_bounded, lemma_quot_of_multiple, mag, mul_wide, quot,
    SCALE,
};
use crate::point2d::Point2D;
use vstd::arithmetic::mul::{
    lemma_mul_is_distributive_add_other_way, lemma_mul_nonnegative, lemma_mul_strictly_positive,
    lemma_mul_unary_negation,
};
use vstd::prelude::*;

verus! {

/// A point in 3D world space, in fixed-point units (`SCALE` per 1.0).
#[derive(Clone, Copy, PartialEq, Eq, Structural, Debug)]
pub struct Point3D {
    pub x: i64,
    pub y: i64,
    pub z: i64,
}

impl View for Point3D {
    type V = (int, int, int);

    open spec fn view(&self) -> (int, int, int) {
        (self.x as int, self.y as int, self.z as int)
    }
}

/// A cosine/sine pair is admissible when both scalars have magnitude at
/// most one, that is at most `SCALE` in fixed-point units.
pub open spec fn rotor_ok(c: int, s: int) -> bool {
    &&& -SCALE <= c <= SCALE
    &&& -SCALE <= s <= SCALE
}

pub open spec fn translated_x(v: (int, int, int), d: int) -> (int, int, int) {
    (v.0 + d, v.1, v.2)
}

pub open spec fn translated_y(v: (int, int, int), d: int) -> (int, int, int) {
    (v.0, v.1 + d, v.2)
}

pub open spec fn translated_z(v: (int, int, int), d: int) -> (int, int, int) {
    (v.0, v.1, v.2 + d)
}

/// Right-handed rotation about the x axis by the angle whose cosine and
/// sine are `c / SCALE` and `s / SCALE`.
pub open spec fn rotated_x(v: (int, int, int), c: int, s: int) -> (int, int, int) {
    (v.0, quot(v.1 * c - v.2 * s, SCALE as int), quot(v.1 * s + v.2 * c, SCALE as int))
}

/// Right-handed rotation about the y axis.
pub open spec fn rotated_y(v: (int, int, int), c: int, s: int) -> (int, int, int) {
    (quot(v.0 * c - v.2 * s, SCALE as int), v.1, quot(v.0 * s + v.2 * c, SCALE as int))
}

/// Right-handed rotation about the z axis.
pub open spec fn rotated_z(v: (int, int, int), c: int, s: int) -> (int, int, int) {
    (quot(v.0 * c - v.1 * s, SCALE as int), quot(v.0 * s + v.1 * c, SCALE as int), v.2)
}

/// Perspective projection: divide the x and y coordinates by the depth.
/// A point at depth exactly zero is clamped to the origin instead of
/// dividing by zero.
pub open spec fn projected(v: (int, int, int)) -> (int, int) {
    if v.2 == 0 {
        (0, 0)
    } else {
        (quot(v.0 * SCALE, v.2), quot(v.1 * SCALE, v.2))
    }
}

/// Orthographic projection: drop the depth, keep x and y unchanged.
pub open spec fn projected_ortho(v: (int, int, int)) -> (int, int) {
    (v.0, v.1)
}

impl Point3D {
    pub fn new(x: i64, y: i64, z: i64) -> (r: Self)
        ensures
            r.x == x,
            r.y == y,
            r.z == z,
    {
        Self { x, y, z }
    }

    /// Add `delta` to the x coordinate, leaving the others unchanged.
    pub fn translate_x(&self, delta: i64) -> (r: Self)
        requires
            i64::MIN <= self.x + delta <= i64::MAX,
        ensures
            r@ == translated_x(self@, delta as int),
    {
        Self { x: self.x + delta, y: self.y, z: self.z }
    }

    /// Add `delta` to the y coordinate, leaving the others unchanged.
    pub fn translate_y(&self, delta: i64) -> (r: Self)
        requires
            i64::MIN <= self.y + delta <= i64::MAX,
        ensures
            r@ == translated_y(self@, delta as int),
    {
        Self { x: self.x, y: self.y + delta, z: self.z }
    }

    /// Add `delta` to the z coordinate, leaving the others unchanged.
    pub fn translate_z(&self, delta: i64) -> (r: Self)
        requires
            i64::MIN <= self.z + delta <= i64::MAX,
        ensures
            r@ == translated_z(self@, delta as int),
    {
        Self { x: self.x, y: self.y, z: self.z + delta }
    }

    /// Rotate about the x axis with cosine `c` and sine `s`.
    pub fn rotate_x(&self, c: i64, s: i64) -> (r: Self)
        requires
            rotor_ok(c as int, s as int),
            mag(self.y as int) + mag(self.z as int) <= i64::MAX,
        ensures
            r@ == rotated_x(self@, c as int, s as int),
    {
        proof {
            lemma_rotation_pair_fits(self.y as int, self.z as int, c as int, s as int);
        }
        let a = mul_wide(self.y, c) - mul_wide(self.z, s);
        let b = mul_wide(self.y, s) + mul_wide(self.z, c);
        Self { x: self.x, y: div_trunc(a, SCALE), z: div_trunc(b, SCALE) }
    }

    /// Rotate about the y axis with cosine `c` and sine `s`.
    pub fn rotate_y(&self, c: i64, s: i64) -> (r: Self)
        requires
            rotor_ok(c as int, s as int),
            mag(self.x as int) + mag(self.z as int) <= i64::MAX,
        ensures
            r@ == rotated_y(self@, c as int, s as int),
    {
        proof {
            lemma_rotation_pair_fits(self.x as int, self.z as int, c as int, s as int);
        }
        let a = mul_wide(self.x, c) - mul_wide(self.z, s);
        let b = mul_wide(self.x, s) + mul_wide(self.z, c);
        Self { x: div_trunc(a, SCALE), y: self.y, z: div_trunc(b, SCALE) }
    }

    /// Rotate about the z axis with cosine `c` and sine `s`.
    pub fn rotate_z(&self, c: i64, s: i64) -> (r: Self)
        requires
            rotor_ok(c as int, s as int),
            mag(self.x as int) + mag(self.y as int) <= i64::MAX,
        ensures
            r@ == rotated_z(self@, c as int, s as int),
    {
        proof {
            lemma_rotation_pair_fits(self.x as int, self.y as int, c as int, s as int);
        }
        let a = mul_wide(self.x, c) - mul_wide(self.y, s);
        let b = mul_wide(self.x, s) + mul_wide(self.y, c);
        Self { x: div_trunc(a, SCALE), y: div_trunc(b, SCALE), z: self.z }
    }

    /// Perspective projection onto the plane at depth one. A point whose
    /// depth is exactly zero maps to the origin instead of dividing by
    /// zero.
    pub fn project(&self) -> (r: Point2D)
        requires
            mag(self.x as int) * SCALE <= i64::MAX,
            mag(self.y as int) * SCALE <= i64::MAX,
        ensures
            r@ == projected(self@),
            self.z == 0 ==> r.x == 0 && r.y == 0,
    {
        if self.z == 0 {
            Point2D { x: 0, y: 0 }
        } else {
            proof {
                lemma_perspective_fits(self.x as int, self.z as int);
                lemma_perspective_fits(self.y as int, self.z as int);
            }
            Point2D {
                x: div_trunc(mul_wide(self.x, SCALE), self.z),
                y: div_trunc(mul_wide(self.y, SCALE), self.z),
            }
        }
    }

    /// Orthographic projection: forward x and y, drop the depth.
    pub fn project_ortho(&self) -> (r: Point2D)
        ensures
            r@ == projected_ortho(self@),
    {
        Point2D { x: self.x, y: self.y }
    }
}

/// Both scaled-down rotation coordinates fit in `i64`, and the wide sums
/// they are formed from fit in `i128`, whenever the magnitudes of the two
/// rotated coordinates sum to at most `i64::MAX`.
proof fn lemma_rotation_pair_fits(p: int, q: int, c: int, s: int)
    requires
        rotor_ok(c, s),
        mag(p) + mag(q) <= i64::MAX,
    ensures
        i128::MIN <= p * c - q * s <= i128::MAX,
        i128::MIN <= p * s + q * c <= i128::MAX,
        i64::MIN <= quot(p * c - q * s, SCALE as int) <= i64::MAX,
        i64::MIN <= quot(p * s + q * c, SCALE as int) <= i64::MAX,
{
    let m = mag(p) + mag(q);
    lemma_mul_bounds(p, c, mag(p), SCALE as int);
    lemma_mul_bounds(q, s, mag(q), SCALE as int);
    lemma_mul_bounds(p, s, mag(p), SCALE as int);
    lemma_mul_bounds(q, c, mag(q), SCALE as int);
    lemma_mul_is_distributive_add_other_way(SCALE as int, mag(p), mag(q));
    lemma_quot_bounded(p * c - q * s, SCALE as int, m);
    lemma_quot_bounded(p * s + q * c, SCALE as int, m);
    lemma_mul_bounds(m, SCALE as int, i64::MAX as int, SCALE as int);
}

/// The perspective quotient of a coordinate with `mag(x) * SCALE` at most
/// `i64::MAX` fits in `i64` for every nonzero depth.
proof fn lemma_perspective_fits(x: int, z: int)
    requires
        z != 0,
        mag(x) * SCALE <= i64::MAX,
    ensures
        i64::MIN <= quot(x * SCALE, z) <= i64::MAX,
{
    let m = mag(x) * SCALE;
    lemma_mul_nonnegative(mag(x), SCALE as int);
    if x >= 0 {
        lemma_mul_nonnegative(x, SCALE as int);
    } else {
        lemma_mul_unary_negation(x, SCALE as int);
        lemma_mul_strictly_positive(-x, SCALE as int);
    }
    assert(mag(x * SCALE) == m);
    assert(m <= m * mag(z)) by (nonlinear_arith)
        requires
            0 <= m,
            1 <= mag(z),
    ;
    lemma_quot_bounded(x * SCALE, z, m);
}

/// The two changed coordinates of a rotation stay within the sum of the
/// bounds of the two coordinates they mix.
pub proof fn lemma_rotation_pair_bounded(p: int, q: int, c: int, s: int, mp: int, mq: int)
    requires
        rotor_ok(c, s),
        mag(p) <= mp,
        mag(q) <= mq,
    ensures
        -(mp + mq) <= quot(p * c - q * s, SCALE as int) <= mp + mq,
        -(mp + mq) <= quot(p * s + q * c, SCALE as int) <= mp + mq,
{
    lemma_mul_bounds(p, c, mp, SCALE as int);
    lemma_mul_bounds(q, s, mq, SCALE as int);
    lemma_mul_bounds(p, s, mp, SCALE as int);
    lemma_mul_bounds(q, c, mq, SCALE as int);
    lemma_mul_is_distributive_add_other_way(SCALE as int, mp, mq);
    lemma_quot_bounded(p * c - q * s, SCALE as int, mp + mq);
    lemma_quot_bounded(p * s + q * c, SCALE as int, mp + mq);
}

/// The perspective quotient of a coordinate bounded by `m` is bounded by
/// `m * SCALE`, for every nonzero depth.
pub proof fn lemma_projected_bounded(x: int, z: int, m: int)
    requires
        z != 0,
        0 <= m,
        mag(x) <= m,
    ensures
        -(m * SCALE) <= quot(x * SCALE, z) <= m * SCALE,
{
    lemma_mul_bounds(x, SCALE as int, m, SCALE as int);
    lemma_mul_nonnegative(m, SCALE as int);
    assert(m * SCALE <= m * SCALE * mag(z)) by (nonlinear_arith)
        requires
            0 <= m * SCALE,
            1 <= mag(z),
    ;
    lemma_quot_bounded(x * SCALE, z, m * SCALE);
}

/// Translating a coordinate by `d` and back by `-d` returns the original
/// point exactly, on every axis.
pub proof fn lemma_translate_round_trip(v: (int, int, int), d: int)
    ensures
        translated_x(translated_x(v, d), -d) == v,
        translated_y(translated_y(v, d), -d) == v,
        translated_z(translated_z(v, d), -d) == v,
{
}

/// A rotation by angle zero, whose cosine/sine pair is exactly
/// `(SCALE, 0)`, is the identity about every axis.
pub proof fn lemma_rotate_zero_identity(v: (int, int, int))
    ensures
        rotated_x(v, SCALE as int, 0) == v,
        rotated_y(v, SCALE as int, 0) == v,
        rotated_z(v, SCALE as int, 0) == v,
{
    lemma_quot_of_multiple(v.0, SCALE as int);
    lemma_quot_of_multiple(v.1, SCALE as int);
    lemma_quot_of_multiple(v.2, SCALE as int);
}

/// Rotation composition is order-sensitive: for the unit point on the x
/// axis and two quarter turns, rotating about y then x differs from
/// rotating about x then y.
pub proof fn lemma_rotation_order_sensitive()
    ensures
        rotated_x(rotated_y((SCALE as int, 0, 0), 0, SCALE as int), 0, SCALE as int) != rotated_y(
            rotated_x((SCALE as int, 0, 0), 0, SCALE as int),
            0,
            SCALE as int,
        ),
{
    let v = (SCALE as int, 0int, 0int);
    let s = SCALE as int;
    lemma_quot_of_multiple(s, s);
    lemma_quot_of_multiple(-s, s);
    lemma_quot_of_multiple(0, s);
    assert(rotated_y(v, 0, s) == (0int, 0int, s));
    assert(rotated_x((0int, 0int, s), 0, s) == (0int, -s, 0int));
    assert(rotated_x(v, 0, s) == v);
    assert(rotated_y(v, 0, s) != (0int, -s, 0int));
}

} // verus!
