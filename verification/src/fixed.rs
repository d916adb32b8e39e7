//! Exact fixed-point scalars.
//!
//! A coordinate is an `i64` counting `SCALE` units per 1.0, so 0.25 is
//! `SCALE / 4` and one pixel is `SCALE` units. Products are formed in
//! `i128` and scaled back down with division that rounds toward zero,
//! which `quot` captures exactly.

use vstd::arithmetic::div_mod::{
    lemma_div_is_ordered, lemma_div_multiples_vanish, lemma_div_pos_is_pos,
};
use vstd::arithmetic::mul::{lemma_mul_strictly_positive, lemma_mul_unary_negation};
use vstd::prelude::*;

verus! {

/// Number of fixed-point units per 1.0: coordinates carry 16 fractional bits.
pub const SCALE: i64 = 65536;

/// Magnitude of an integer.
pub open spec fn mag(a: int) -> int {
    if a >= 0 {
        a
    } else {
        -a
    }
}

/// The quotient of `a` by `b` rounded toward zero, as machine division of
/// signed integers rounds it. Meaningful only for `b != 0`.
pub open spec fn quot(a: int, b: int) -> int {
    if a == 0 {
        0
    } else if a > 0 && b > 0 {
        a / b
    } else if a < 0 && b < 0 {
        (-a) / (-b)
    } else if a < 0 {
        -((-a) / b)
    } else {
        -(a / (-b))
    }
}

/// Dividing an exact multiple of a positive `b` gives back the factor:
/// `quot(a * b, b) == a`.
pub proof fn lemma_quot_of_multiple(a: int, b: int)
    requires
        b > 0,
    ensures
        quot(a * b, b) == a,
{
    if a == 0 {
        assert(a * b == 0) by (nonlinear_arith)
            requires
                a == 0,
        ;
    } else if a > 0 {
        lemma_mul_strictly_positive(a, b);
        lemma_div_multiples_vanish(a, b);
        assert(a * b == b * a) by (nonlinear_arith);
    } else {
        lemma_mul_strictly_positive(-a, b);
        lemma_mul_unary_negation(a, b);
        lemma_div_multiples_vanish(-a, b);
        assert((-a) * b == b * (-a)) by (nonlinear_arith);
    }
}

/// A quotient is bounded by `m` whenever the numerator is bounded by
/// `m` times the magnitude of the divisor.
pub proof fn lemma_quot_bounded(a: int, b: int, m: int)
    requires
        b != 0,
        0 <= m,
        mag(a) <= m * mag(b),
    ensures
        -m <= quot(a, b) <= m,
{
    let bb = mag(b);
    if a != 0 {
        let aa = mag(a);
        lemma_div_is_ordered(aa, m * bb, bb);
        lemma_div_multiples_vanish(m, bb);
        assert(m * bb == bb * m) by (nonlinear_arith);
        lemma_div_pos_is_pos(aa, bb);
        if a > 0 && b > 0 {
            assert(quot(a, b) == aa / bb);
        } else if a < 0 && b < 0 {
            assert(quot(a, b) == aa / bb);
        } else if a < 0 {
            assert(quot(a, b) == -(aa / bb));
        } else {
            assert(quot(a, b) == -(aa / bb));
        }
    }
}

/// A product of bounded factors is bounded by the product of the bounds.
pub proof fn lemma_mul_bounds(a: int, b: int, ma: int, mb: int)
    requires
        -ma <= a <= ma,
        -mb <= b <= mb,
    ensures
        -(ma * mb) <= a * b <= ma * mb,
{
    assert(-(ma * mb) <= a * b <= ma * mb) by (nonlinear_arith)
        requires
            -ma <= a <= ma,
            -mb <= b <= mb,
    ;
}

/// The exact product of two coordinates, formed in `i128` so it cannot
/// overflow.
pub fn mul_wide(a: i64, b: i64) -> (r: i128)
    ensures
        r == a * b,
{
    proof {
        lemma_mul_bounds(a as int, b as int, 0x8000_0000_0000_0000, 0x8000_0000_0000_0000);
    }
    (a as i128) * (b as i128)
}

/// Machine division of a wide numerator by a coordinate divisor, rounding
/// toward zero; the caller shows the quotient fits back in a coordinate.
pub fn div_trunc(n: i128, d: i64) -> (r: i64)
    requires
        d != 0,
        i64::MIN <= quot(n as int, d as int) <= i64::MAX,
    ensures
        r == quot(n as int, d as int),
{
    let q = match n.checked_div(d as i128) {
        Some(q) => q,
        None => {
            proof {
                assert(false);
            }
            0
        },
    };
    q as i64
}

} // verus!
