//! The fixed-point scalar that underlies both angular units, together with
//! the truncating division and remainder that its arithmetic is specified
//! with.

use vstd::prelude::*;
use vstd::arithmetic::div_mod::{lemma_fundamental_div_mod, lemma_mod_bound};
use vstd::arithmetic::mul::lemma_mul_unary_negation;

verus! {

/// Raw steps per whole unit: the scalar counts millionths.
pub const SCALE: i64 = 1_000_000;

/// Tolerance of the fuzzy comparison, in raw steps (one ten-thousandth of a
/// unit). One fixed tolerance fits the one fixed precision of the scalar; it
/// is wide enough to absorb the rounding of a unit conversion, which moves a
/// value by at most 58 raw steps, and narrow enough to tell apart values a
/// whole step of the coarsest named constant apart.
pub const FUZZY_EPS: i64 = 100;

/// Whether a mathematical integer fits in the machine scalar.
pub open spec fn in_i64(v: int) -> bool {
    i64::MIN <= v <= i64::MAX
}

/// Absolute value.
pub open spec fn iabs(v: int) -> int {
    if v >= 0 {
        v
    } else {
        -v
    }
}

/// Quotient of truncating division: rounds toward zero, as machine integer
/// division does. (The bare `/` on `int` rounds toward negative infinity.)
pub open spec fn tdiv(a: int, b: int) -> int
    recommends
        b != 0,
{
    if a >= 0 && b >= 0 {
        a / b
    } else if a >= 0 {
        -(a / -b)
    } else if b >= 0 {
        -(-a / b)
    } else {
        -a / -b
    }
}

/// Remainder of truncating division; its sign follows the dividend.
pub open spec fn trem(a: int, b: int) -> int
    recommends
        b != 0,
{
    a - b * tdiv(a, b)
}

/// Normalization into `[0, full)`: the truncating remainder by `full`,
/// shifted up by one turn when it comes out negative.
pub open spec fn wrap_val(v: int, full: int) -> int
    recommends
        full > 0,
{
    let t = trem(v, full);
    if t >= 0 {
        t
    } else {
        t + full
    }
}

/// Two raw values are fuzzy-equal when they differ by at most `FUZZY_EPS`.
pub open spec fn fuzzy_val(a: int, b: int) -> bool {
    iabs(a - b) <= FUZZY_EPS
}

/// The truncating remainder is the Euclidean remainder of the magnitudes,
/// carrying the dividend's sign.
pub proof fn lemma_trem_abs(a: int, b: int)
    requires
        b != 0,
    ensures
        trem(a, b) == if a >= 0 {
            iabs(a) % iabs(b)
        } else {
            -(iabs(a) % iabs(b))
        },
{
    lemma_mul_unary_negation(b, tdiv(a, b));
    lemma_mul_unary_negation(-b, tdiv(a, b));
    if a >= 0 && b >= 0 {
        lemma_fundamental_div_mod(a, b);
    } else if a >= 0 {
        lemma_fundamental_div_mod(a, -b);
    } else if b >= 0 {
        lemma_fundamental_div_mod(-a, b);
    } else {
        lemma_fundamental_div_mod(-a, -b);
    }
}

/// The truncating remainder is smaller in magnitude than the divisor, and
/// never on the far side of zero from the dividend.
pub proof fn lemma_trem_bound(a: int, b: int)
    requires
        b > 0,
    ensures
        -b < trem(a, b) < b,
        a >= 0 ==> trem(a, b) >= 0,
        a < 0 ==> trem(a, b) <= 0,
{
    lemma_trem_abs(a, b);
    lemma_mod_bound(iabs(a), b);
}

/// The magnitude of a truncating quotient is the quotient of the magnitudes.
pub proof fn lemma_tdiv_abs(a: int, b: int)
    requires
        b != 0,
    ensures
        iabs(tdiv(a, b)) == iabs(a) / iabs(b),
{
    vstd::arithmetic::div_mod::lemma_div_pos_is_pos(iabs(a), iabs(b));
}

/// The product of two machine scalars fits comfortably inside the wide
/// machine integer.
pub proof fn lemma_i64_product_in_i128(a: int, b: int)
    requires
        in_i64(a),
        in_i64(b),
    ensures
        -0x40000000000000000000000000000000 <= a * b <= 0x40000000000000000000000000000000,
{
    assert(-0x40000000000000000000000000000000 <= a * b
        <= 0x40000000000000000000000000000000) by (nonlinear_arith)
        requires
            -0x8000000000000000 <= a <= 0x7fffffffffffffff,
            -0x8000000000000000 <= b <= 0x7fffffffffffffff,
    ;
}

/// The fixed-point scalar: a count of raw steps, each `1 / SCALE` of a whole
/// unit. Angles in either unit carry one of these as their magnitude, and
/// scaling an angle takes one as the factor.
#[derive(Clone, Copy, Debug)]
pub struct Fixed {
    /// The count of raw steps this scalar stands for.
    pub raw: i64,
}

impl Fixed {
    /// The mathematical value of this scalar, in raw steps.
    pub open spec fn value(self) -> int {
        self.raw as int
    }

    /// A scalar from a raw step count.
    pub fn new(raw: i64) -> (r: Fixed)
        ensures
            r.value() == raw as int,
    {
        Fixed { raw }
    }

    /// A scalar standing for a whole number of units.
    pub fn from_int(whole: i64) -> (r: Fixed)
        requires
            in_i64(whole * SCALE),
        ensures
            r.value() == whole * SCALE,
    {
        Fixed { raw: whole * SCALE }
    }

    /// The raw step count.
    pub fn raw(self) -> (r: i64)
        ensures
            r as int == self.value(),
    {
        self.raw
    }
}

/// The magnitude of a scalar, as an unsigned machine integer.
pub(crate) fn abs_u64(v: i64) -> (m: u64)
    ensures
        m as int == iabs(v as int),
{
    if v >= 0 {
        v as u64
    } else {
        let w: i128 = -(v as i128);
        w as u64
    }
}

/// The truncating remainder on machine integers, computed on magnitudes.
pub(crate) fn trem_i64(a: i64, b: i64) -> (r: i64)
    requires
        b != 0,
    ensures
        r as int == trem(a as int, b as int),
        iabs(r as int) < iabs(b as int),
{
    let am = abs_u64(a);
    let bm = abs_u64(b);
    let rm = am % bm;
    proof {
        lemma_trem_abs(a as int, b as int);
        lemma_mod_bound(iabs(a as int), iabs(b as int));
    }
    if a >= 0 {
        rm as i64
    } else {
        -(rm as i64)
    }
}

/// Truncating division on wide machine integers, computed on magnitudes.
pub(crate) fn tdiv_i128(a: i128, b: i128) -> (r: i128)
    requires
        b != 0,
        a > i128::MIN,
        b > i128::MIN,
    ensures
        r as int == tdiv(a as int, b as int),
        iabs(r as int) == iabs(a as int) / iabs(b as int),
{
    let am: u128 = if a >= 0 {
        a as u128
    } else {
        (-a) as u128
    };
    let bm: u128 = if b >= 0 {
        b as u128
    } else {
        (-b) as u128
    };
    let qm = am / bm;
    proof {
        vstd::arithmetic::div_mod::lemma_div_pos_is_pos(am as int, bm as int);
        vstd::arithmetic::div_mod::lemma_div_nonincreasing(am as int, bm as int);
    }
    if (a >= 0) == (b >= 0) {
        qm as i128
    } else {
        -(qm as i128)
    }
}

} // verus!
