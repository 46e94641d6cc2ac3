//! The laws the two angular units obey, stated over the same spec functions
//! that the executable operations are specified with, and proved for every
//! raw scalar value.

use vstd::prelude::*;
use crate::scalar::{
    fuzzy_val, iabs, lemma_trem_abs, lemma_trem_bound, tdiv, wrap_val,
};
use crate::angle::{deg_to_rad_val, rad_to_deg_val, RAD_PER_DEG_DEN, RAD_PER_DEG_NUM};
use vstd::arithmetic::div_mod::{
    lemma_add_mod_noop, lemma_div_by_multiple, lemma_div_is_ordered, lemma_div_of0,
    lemma_div_pos_is_pos, lemma_fundamental_div_mod, lemma_fundamental_div_mod_converse,
    lemma_mod_bound, lemma_mod_multiples_basic, lemma_mod_twice,
};
use vstd::arithmetic::mul::{lemma_mul_is_commutative, lemma_mul_unary_negation};

verus! {

/// Wrapping lands in `[0, full)`: every wrapped angle lies between the zero
/// angle (inclusive) and a full turn (exclusive).
pub proof fn lemma_wrap_range(v: int, full: int)
    requires
        full > 0,
    ensures
        0 <= wrap_val(v, full) < full,
{
    lemma_trem_bound(v, full);
}

/// Wrapping computes the Euclidean remainder by a full turn.
pub proof fn lemma_wrap_is_mod(v: int, full: int)
    requires
        full > 0,
    ensures
        wrap_val(v, full) == v % full,
{
    lemma_trem_abs(v, full);
    if v >= 0 {
        lemma_fundamental_div_mod(v, full);
    } else {
        let m = -v;
        lemma_fundamental_div_mod(m, full);
        let q = m / full;
        let r = m % full;
        lemma_mod_bound(m, full);
        if r == 0 {
            assert(v == (-q) * full) by {
                lemma_mul_unary_negation(q, full);
                lemma_mul_is_commutative(q, full);
                lemma_mul_is_commutative(-q, full);
            }
            lemma_mod_multiples_basic(-q, full);
        } else {
            assert(v == (-q - 1) * full + (full - r)) by {
                lemma_mul_unary_negation(q, full);
                lemma_mul_is_commutative(q, full);
                assert((-q - 1) * full == (-q) * full - full) by {
                    lemma_mul_is_commutative(-q - 1, full);
                    lemma_mul_is_commutative(-q, full);
                    assert(full * (-q - 1) == full * (-q) - full) by (nonlinear_arith);
                }
                lemma_mul_is_commutative(-q, full);
            }
            lemma_fundamental_div_mod_converse(v, full, -q - 1, full - r);
        }
    }
}

/// Wrap idempotence: wrapping a wrapped angle changes nothing, exactly.
pub proof fn lemma_wrap_idempotent(v: int, full: int)
    requires
        full > 0,
    ensures
        wrap_val(wrap_val(v, full), full) == wrap_val(v, full),
{
    lemma_wrap_is_mod(v, full);
    lemma_wrap_is_mod(wrap_val(v, full), full);
    lemma_mod_twice(v, full);
}

/// Wrapping before or after a rotation is the same: rotating a wrapped angle
/// by `half` and wrapping equals rotating the angle itself and wrapping. In
/// particular, taking the opposite commutes with wrapping, exactly.
pub proof fn lemma_wrap_opposite_commute(v: int, half: int, full: int)
    requires
        full > 0,
    ensures
        wrap_val(wrap_val(v, full) + half, full) == wrap_val(v + half, full),
        wrap_val(wrap_val(v, full) + half, full) == wrap_val(wrap_val(v + half, full), full),
{
    lemma_wrap_is_mod(v, full);
    lemma_wrap_is_mod(wrap_val(v, full) + half, full);
    lemma_wrap_is_mod(v + half, full);
    lemma_mod_twice(v, full);
    lemma_add_mod_noop(v % full, half, full);
    lemma_add_mod_noop(v, half, full);
    lemma_wrap_idempotent(v + half, full);
}

/// Arithmetic closure: adding an angle and subtracting it again restores the
/// first angle, exactly — same-unit addition and subtraction are exact on
/// the raw scalar, so in particular the result is fuzzy-equal to the first.
pub proof fn lemma_add_sub_restores(a: int, b: int)
    ensures
        (a + b) - b == a,
        fuzzy_val((a + b) - b, a),
{
}

/// Negating the dividend negates the truncating quotient.
proof fn lemma_tdiv_neg(a: int, b: int)
    requires
        b > 0,
    ensures
        tdiv(-a, b) == -tdiv(a, b),
{
    if a == 0 {
        lemma_div_of0(b);
    }
}

/// Scaling a nonnegative value by `p / q` rounding toward zero and scaling
/// back by `q / p` loses at most `(p + q - 1) / p`, and never overshoots.
proof fn lemma_ratio_round_trip_nonneg(x: int, p: int, q: int)
    requires
        x >= 0,
        p > 0,
        q > 0,
    ensures
        0 <= x - tdiv(tdiv(x * p, q) * q, p) <= (p + q - 1) / p,
{
    assert(x * p >= 0) by (nonlinear_arith)
        requires
            x >= 0,
            p > 0,
    ;
    lemma_div_pos_is_pos(x * p, q);
    let y = tdiv(x * p, q);
    assert(y == (x * p) / q);
    assert(y * q >= 0) by (nonlinear_arith)
        requires
            y >= 0,
            q > 0,
    ;
    lemma_div_pos_is_pos(y * q, p);
    let z = tdiv(y * q, p);
    assert(z == (y * q) / p);
    lemma_fundamental_div_mod(x * p, q);
    lemma_mod_bound(x * p, q);
    lemma_fundamental_div_mod(y * q, p);
    lemma_mod_bound(y * q, p);
    let r1 = (x * p) % q;
    let r2 = (y * q) % p;
    let w = x - z;
    assert(p * w == r1 + r2) by (nonlinear_arith)
        requires
            x * p == q * y + r1,
            y * q == p * z + r2,
            w == x - z,
    ;
    assert(w >= 0) by (nonlinear_arith)
        requires
            p * w == r1 + r2,
            r1 >= 0,
            r2 >= 0,
            p > 0,
    ;
    assert(w * p == p * w) by (nonlinear_arith);
    lemma_div_by_multiple(w, p);
    lemma_div_is_ordered(w * p, p + q - 1, p);
}

/// The two-sided form of the ratio round trip, by the symmetry of
/// truncating division under negation.
proof fn lemma_ratio_round_trip(x: int, p: int, q: int)
    requires
        p > 0,
        q > 0,
    ensures
        iabs(x - tdiv(tdiv(x * p, q) * q, p)) <= (p + q - 1) / p,
{
    if x >= 0 {
        lemma_ratio_round_trip_nonneg(x, p, q);
    } else {
        let m = -x;
        lemma_ratio_round_trip_nonneg(m, p, q);
        let ym = tdiv(m * p, q);
        let zm = tdiv(ym * q, p);
        assert(x * p == -(m * p)) by (nonlinear_arith)
            requires
                x == -m,
        ;
        lemma_tdiv_neg(m * p, q);
        assert(tdiv(x * p, q) == -ym);
        assert((-ym) * q == -(ym * q)) by (nonlinear_arith);
        lemma_tdiv_neg(ym * q, p);
        assert(tdiv(tdiv(x * p, q) * q, p) == -zm);
    }
}

/// Round trip for degrees: converting a degree value into radians and back
/// moves its raw scalar by at most 58 steps, well within the fuzzy
/// tolerance, whatever the value. The two conversions are mutual inverses up
/// to rounding.
pub proof fn lemma_degrees_round_trip(v: int)
    ensures
        fuzzy_val(rad_to_deg_val(deg_to_rad_val(v)), v),
        iabs(rad_to_deg_val(deg_to_rad_val(v)) - v) <= 58,
{
    lemma_ratio_round_trip(v, RAD_PER_DEG_NUM as int, RAD_PER_DEG_DEN as int);
    assert((RAD_PER_DEG_NUM + RAD_PER_DEG_DEN - 1) / (RAD_PER_DEG_NUM as int) == 58);
}

/// Round trip for radians: converting a radian value into degrees and back
/// moves its raw scalar by at most one step, well within the fuzzy
/// tolerance, whatever the value. The two conversions are mutual inverses up
/// to rounding.
pub proof fn lemma_radians_round_trip(v: int)
    ensures
        fuzzy_val(deg_to_rad_val(rad_to_deg_val(v)), v),
        iabs(deg_to_rad_val(rad_to_deg_val(v)) - v) <= 1,
{
    lemma_ratio_round_trip(v, RAD_PER_DEG_DEN as int, RAD_PER_DEG_NUM as int);
    assert((RAD_PER_DEG_DEN + RAD_PER_DEG_NUM - 1) / (RAD_PER_DEG_DEN as int) == 1);
}

} // verus!
