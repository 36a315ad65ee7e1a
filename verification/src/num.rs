//! Truncating integer division, as the prediction arithmetic uses it.
//!
//! Velocities are quotients of signed fixed-point values.  Machine division
//! on signed integers truncates toward zero, while the mathematical `/` of
//! specifications is Euclidean, so the model is written around an explicit
//! truncating division and the executable code is proved against it.

use vstd::arithmetic::div_mod::{
    lemma_div_is_ordered, lemma_div_multiples_vanish, lemma_div_nonincreasing,
    lemma_div_pos_is_pos,
};
use vstd::prelude::*;

verus! {

/// Absolute value of a mathematical integer.
pub open spec fn abs_int(a: int) -> int {
    if a >= 0 {
        a
    } else {
        -a
    }
}

/// Division truncating toward zero, defined for positive divisors.
pub open spec fn div_trunc(a: int, b: int) -> int
    recommends
        b >= 1,
{
    if a >= 0 {
        a / b
    } else {
        -((-a) / b)
    }
}

/// A truncating quotient never grows past the dividend's magnitude.
pub proof fn lemma_div_trunc_abs(a: int, b: int)
    requires
        b >= 1,
    ensures
        abs_int(div_trunc(a, b)) <= abs_int(a),
        a >= 0 ==> div_trunc(a, b) >= 0,
        a < 0 ==> div_trunc(a, b) <= 0,
{
    if a >= 0 {
        lemma_div_pos_is_pos(a, b);
        lemma_div_nonincreasing(a, b);
    } else {
        lemma_div_pos_is_pos(-a, b);
        lemma_div_nonincreasing(-a, b);
    }
}

/// A dividend within `b * m` of zero has its truncating quotient within `m`.
pub proof fn lemma_div_trunc_bounded(a: int, b: int, m: int)
    requires
        b >= 1,
        m >= 0,
        -(b * m) <= a <= b * m,
    ensures
        -m <= div_trunc(a, b) <= m,
{
    lemma_div_multiples_vanish(m, b);
    if a >= 0 {
        lemma_div_pos_is_pos(a, b);
        lemma_div_is_ordered(a, b * m, b);
    } else {
        lemma_div_pos_is_pos(-a, b);
        lemma_div_is_ordered(-a, b * m, b);
    }
}

/// Truncating division on machine words, matching `div_trunc` exactly.
pub fn div_signed(a: i128, b: i128) -> (q: i128)
    requires
        b >= 1,
        a > i128::MIN,
    ensures
        q == div_trunc(a as int, b as int),
        abs_int(q as int) <= abs_int(a as int),
{
    proof {
        lemma_div_trunc_abs(a as int, b as int);
    }
    a / b
}

} // verus!
