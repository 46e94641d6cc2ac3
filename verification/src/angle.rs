//! The `Angle` contract and its two implementations, `Radians` and
//! `Degrees`.
//!
//! A value of either unit carries one fixed-point scalar and nothing else;
//! no operation normalizes a value unless it is `wrap` (or `opposite`, which
//! ends in a wrap).

use vstd::prelude::*;
use crate::scalar::{
    fuzzy_val, iabs, in_i64, lemma_i64_product_in_i128, lemma_tdiv_abs,
    lemma_trem_bound, tdiv, tdiv_i128, trem, trem_i64, wrap_val, Fixed, FUZZY_EPS, SCALE,
};
use crate::render::{fixed_str, fixed_to_string};
use vstd::arithmetic::div_mod::lemma_div_is_ordered;
use vstd::arithmetic::mul::lemma_mul_inequality;

verus! {

/// Numerator of the ratio between one radian step and one degree step:
/// `RAD_PER_DEG_NUM / RAD_PER_DEG_DEN` stands for pi / 180, with pi taken as
/// the close rational 355 / 113, so the denominator is 113 * 180.
pub const RAD_PER_DEG_NUM: i64 = 355;

/// Denominator of the radian-per-degree ratio; see `RAD_PER_DEG_NUM`.
pub const RAD_PER_DEG_DEN: i64 = 20340;

/// A full turn in radian raw steps: two pi, rounded to the scale.
pub const RAD_FULL_TURN: i64 = 6_283_185;

/// Half a turn in radian raw steps: pi, rounded to the scale.
pub const RAD_HALF_TURN: i64 = 3_141_593;

/// A quarter turn in radian raw steps: pi over two, rounded to the scale.
pub const RAD_QUADRANT: i64 = 1_570_796;

/// A sixth of a turn in radian raw steps: pi over three, rounded to the scale.
pub const RAD_SEXTANT: i64 = 1_047_198;

/// An eighth of a turn in radian raw steps: pi over four, rounded to the scale.
pub const RAD_OCTANT: i64 = 785_398;

/// A full turn in degree raw steps: 360 whole units.
pub const DEG_FULL_TURN: i64 = 360_000_000;

/// Half a turn in degree raw steps: 180 whole units.
pub const DEG_HALF_TURN: i64 = 180_000_000;

/// A quarter turn in degree raw steps: 90 whole units.
pub const DEG_QUADRANT: i64 = 90_000_000;

/// A sixth of a turn in degree raw steps: 60 whole units.
pub const DEG_SEXTANT: i64 = 60_000_000;

/// An eighth of a turn in degree raw steps: 45 whole units.
pub const DEG_OCTANT: i64 = 45_000_000;

/// A raw degree value taken into the radian scale: multiplied by pi / 180,
/// rounded toward zero.
pub open spec fn deg_to_rad_val(v: int) -> int {
    tdiv(v * RAD_PER_DEG_NUM, RAD_PER_DEG_DEN as int)
}

/// A raw radian value taken into the degree scale: multiplied by 180 / pi,
/// rounded toward zero.
pub open spec fn rad_to_deg_val(v: int) -> int {
    tdiv(v * RAD_PER_DEG_DEN, RAD_PER_DEG_NUM as int)
}

/// Taking a machine scalar into the radian scale shrinks its magnitude, so
/// the result is a machine scalar again.
proof fn lemma_deg_to_rad_fits(v: int)
    requires
        in_i64(v),
    ensures
        in_i64(deg_to_rad_val(v)),
        iabs(deg_to_rad_val(v)) <= iabs(v),
{
    lemma_tdiv_abs(v * RAD_PER_DEG_NUM, RAD_PER_DEG_DEN as int);
    assert(iabs(v * RAD_PER_DEG_NUM) == iabs(v) * RAD_PER_DEG_NUM) by (nonlinear_arith);
    lemma_mul_inequality(RAD_PER_DEG_NUM as int, RAD_PER_DEG_DEN as int, iabs(v));
    assert(iabs(v) * RAD_PER_DEG_NUM == RAD_PER_DEG_NUM * iabs(v)) by (nonlinear_arith);
    assert(iabs(v) * RAD_PER_DEG_DEN == RAD_PER_DEG_DEN * iabs(v)) by (nonlinear_arith);
    lemma_div_is_ordered(
        iabs(v) * RAD_PER_DEG_NUM,
        iabs(v) * RAD_PER_DEG_DEN,
        RAD_PER_DEG_DEN as int,
    );
    vstd::arithmetic::div_mod::lemma_div_by_multiple(iabs(v), RAD_PER_DEG_DEN as int);
}

/// Multiplies a raw value by `num / den`, rounding toward zero, through the
/// wide machine integer so that the product cannot overflow.
fn raw_mul_div(a: i64, num: i64, den: i64) -> (r: i64)
    requires
        den != 0,
        in_i64(tdiv(a as int * num as int, den as int)),
    ensures
        r as int == tdiv(a as int * num as int, den as int),
{
    proof {
        lemma_i64_product_in_i128(a as int, num as int);
    }
    let p: i128 = (a as i128) * (num as i128);
    let q = tdiv_i128(p, den as i128);
    q as i64
}

/// Normalizes a raw value into `[0, full)`: the truncating remainder by
/// `full`, pushed up by one turn when negative.
fn raw_wrap(a: i64, full: i64) -> (r: i64)
    requires
        full > 0,
    ensures
        r as int == wrap_val(a as int, full as int),
        0 <= r < full,
{
    let t = trem_i64(a, full);
    proof {
        lemma_trem_bound(a as int, full as int);
    }
    if t >= 0 {
        t
    } else {
        t + full
    }
}

/// Whether two raw values differ by at most the fuzzy tolerance.
fn raw_fuzzy_eq(a: i64, b: i64) -> (r: bool)
    ensures
        r == fuzzy_val(a as int, b as int),
{
    let d: i128 = (a as i128) - (b as i128);
    let e: i128 = FUZZY_EPS as i128;
    -e <= d && d <= e
}

/// The contract every angular unit implements: named turn fractions,
/// unit-preserving arithmetic over the shared fixed-point scalar, conversion
/// into either unit, normalization into one turn, the half-turn rotation,
/// exact ordering, and tolerance-based equality.
///
/// Arithmetic never normalizes: only `wrap` and `opposite` land in
/// `[zero(), full_turn())`.
pub trait Angle: Sized + Copy {
    /// The raw fixed-point scalar this angle carries, as a mathematical
    /// integer.
    spec fn value(self) -> int;

    /// The raw scalar of one full turn in this unit.
    spec fn full_turn_val() -> int;

    /// The raw scalar of half a turn in this unit.
    spec fn half_turn_val() -> int;

    /// The raw scalar of a quarter turn in this unit.
    spec fn quadrant_val() -> int;

    /// The raw scalar of a sixth of a turn in this unit.
    spec fn sextant_val() -> int;

    /// The raw scalar of an eighth of a turn in this unit.
    spec fn octant_val() -> int;

    /// What conversion into radians does to the raw scalar.
    spec fn to_radians_val(v: int) -> int;

    /// What conversion into degrees does to the raw scalar.
    spec fn to_degrees_val(v: int) -> int;

    /// Whether conversion into degrees keeps the raw scalar inside the
    /// machine integer.
    spec fn to_degrees_ok(v: int) -> bool;

    /// One full turn: 360 degrees, or two pi radians.
    fn full_turn() -> (r: Self)
        ensures
            r.value() == Self::full_turn_val(),
            0 < Self::full_turn_val(),
    ;

    /// Half a turn: 180 degrees, or pi radians.
    fn half_turn() -> (r: Self)
        ensures
            r.value() == Self::half_turn_val(),
            0 < Self::half_turn_val(),
    ;

    /// A quarter turn: 90 degrees, or pi over two radians.
    fn quadrant() -> (r: Self)
        ensures
            r.value() == Self::quadrant_val(),
    ;

    /// A sixth of a turn: 60 degrees, or pi over three radians.
    fn sextant() -> (r: Self)
        ensures
            r.value() == Self::sextant_val(),
    ;

    /// An eighth of a turn: 45 degrees, or pi over four radians.
    fn octant() -> (r: Self)
        ensures
            r.value() == Self::octant_val(),
    ;

    /// The zero angle.
    fn zero() -> (r: Self)
        ensures
            r.value() == 0,
    ;

    /// Same-unit addition; exact on the raw scalar.
    fn add(self, rhs: Self) -> (r: Self)
        requires
            in_i64(self.value() + rhs.value()),
        ensures
            r.value() == self.value() + rhs.value(),
    ;

    /// Same-unit subtraction; exact on the raw scalar.
    fn sub(self, rhs: Self) -> (r: Self)
        requires
            in_i64(self.value() - rhs.value()),
        ensures
            r.value() == self.value() - rhs.value(),
    ;

    /// Scaling by a raw scalar factor, rounded toward zero.
    fn mul(self, rhs: Fixed) -> (r: Self)
        requires
            in_i64(tdiv(self.value() * rhs.value(), SCALE as int)),
        ensures
            r.value() == tdiv(self.value() * rhs.value(), SCALE as int),
    ;

    /// Division by a nonzero raw scalar, rounded toward zero.
    fn div(self, rhs: Fixed) -> (r: Self)
        requires
            rhs.value() != 0,
            in_i64(tdiv(self.value() * SCALE as int, rhs.value())),
        ensures
            r.value() == tdiv(self.value() * SCALE as int, rhs.value()),
    ;

    /// The remainder by a nonzero raw scalar divisor; its sign follows this
    /// angle, as the machine remainder's does.
    fn modulo(self, rhs: Fixed) -> (r: Self)
        requires
            rhs.value() != 0,
        ensures
            r.value() == trem(self.value(), rhs.value()),
    ;

    /// Negation; exact on the raw scalar.
    fn neg(self) -> (r: Self)
        requires
            in_i64(-self.value()),
        ensures
            r.value() == -self.value(),
    ;

    /// This angle in radians; the identity on a radian value.
    fn to_radians(self) -> (r: Radians)
        ensures
            r.raw_value() == Self::to_radians_val(self.value()),
    ;

    /// This angle in degrees; the identity on a degree value.
    fn to_degrees(self) -> (r: Degrees)
        requires
            Self::to_degrees_ok(self.value()),
        ensures
            r.raw_value() == Self::to_degrees_val(self.value()),
    ;

    /// This angle normalized into `[zero(), full_turn())`: the remainder by
    /// a full turn, pushed up by one turn when the machine remainder comes
    /// out negative.
    fn wrap(self) -> (r: Self)
        ensures
            r.value() == wrap_val(self.value(), Self::full_turn_val()),
            0 <= r.value() < Self::full_turn_val(),
    ;

    /// This angle rotated by exactly half a turn, then wrapped.
    fn opposite(self) -> (r: Self)
        requires
            in_i64(self.value() + Self::half_turn_val()),
        ensures
            r.value() == wrap_val(
                self.value() + Self::half_turn_val(),
                Self::full_turn_val(),
            ),
            0 <= r.value() < Self::full_turn_val(),
    ;

    /// Tolerance comparison: whether the raw scalars differ by at most
    /// `FUZZY_EPS`, absorbing the rounding of scaling and conversion.
    fn fuzzy_eq(self, other: Self) -> (r: bool)
        ensures
            r == fuzzy_val(self.value(), other.value()),
    ;

    /// Exact equality of the raw scalars.
    fn eq(self, other: Self) -> (r: bool)
        ensures
            r == (self.value() == other.value()),
    ;

    /// Exact inequality of the raw scalars.
    fn ne(self, other: Self) -> (r: bool)
        ensures
            r == (self.value() != other.value()),
    ;

    /// Strict order on the raw scalars.
    fn lt(self, other: Self) -> (r: bool)
        ensures
            r == (self.value() < other.value()),
    ;

    /// Order on the raw scalars.
    fn le(self, other: Self) -> (r: bool)
        ensures
            r == (self.value() <= other.value()),
    ;

    /// Reverse order on the raw scalars.
    fn ge(self, other: Self) -> (r: bool)
        ensures
            r == (self.value() >= other.value()),
    ;

    /// Strict reverse order on the raw scalars.
    fn gt(self, other: Self) -> (r: bool)
        ensures
            r == (self.value() > other.value()),
    ;
}

/// An angle measured in radians: a full turn is two pi.
#[derive(Clone, Copy, Debug)]
pub struct Radians {
    /// The fixed-point magnitude, in radian raw steps.
    pub scalar: Fixed,
}

/// An angle measured in degrees: a full turn is 360.
#[derive(Clone, Copy, Debug)]
pub struct Degrees {
    /// The fixed-point magnitude, in degree raw steps.
    pub scalar: Fixed,
}

impl Radians {
    /// The raw scalar this angle carries, as a mathematical integer; the
    /// same value as `Angle::value`, stated without going through the trait.
    pub open spec fn raw_value(self) -> int {
        self.scalar.raw as int
    }

    /// A radian angle from a raw scalar.
    pub fn new(scalar: Fixed) -> (r: Radians)
        ensures
            r.raw_value() == scalar.value(),
    {
        Radians { scalar }
    }

    /// Same-unit addition; exact on the raw scalar.
    pub fn add(self, rhs: Radians) -> (r: Radians)
        requires
            in_i64(self.raw_value() + rhs.raw_value()),
        ensures
            r.raw_value() == self.raw_value() + rhs.raw_value(),
    {
        Radians { scalar: Fixed { raw: self.scalar.raw + rhs.scalar.raw } }
    }

    /// Same-unit subtraction; exact on the raw scalar.
    pub fn sub(self, rhs: Radians) -> (r: Radians)
        requires
            in_i64(self.raw_value() - rhs.raw_value()),
        ensures
            r.raw_value() == self.raw_value() - rhs.raw_value(),
    {
        Radians { scalar: Fixed { raw: self.scalar.raw - rhs.scalar.raw } }
    }

    /// Scaling by a raw scalar factor, rounded toward zero.
    pub fn mul(self, rhs: Fixed) -> (r: Radians)
        requires
            in_i64(tdiv(self.raw_value() * rhs.value(), SCALE as int)),
        ensures
            r.raw_value() == tdiv(self.raw_value() * rhs.value(), SCALE as int),
    {
        Radians { scalar: Fixed { raw: raw_mul_div(self.scalar.raw, rhs.raw, SCALE) } }
    }

    /// Division by a nonzero raw scalar, rounded toward zero.
    pub fn div(self, rhs: Fixed) -> (r: Radians)
        requires
            rhs.value() != 0,
            in_i64(tdiv(self.raw_value() * SCALE as int, rhs.value())),
        ensures
            r.raw_value() == tdiv(self.raw_value() * SCALE as int, rhs.value()),
    {
        Radians { scalar: Fixed { raw: raw_mul_div(self.scalar.raw, SCALE, rhs.raw) } }
    }

    /// The remainder by a nonzero raw scalar divisor; its sign follows this
    /// angle, as the machine remainder's does.
    pub fn modulo(self, rhs: Fixed) -> (r: Radians)
        requires
            rhs.value() != 0,
        ensures
            r.raw_value() == trem(self.raw_value(), rhs.value()),
    {
        Radians { scalar: Fixed { raw: trem_i64(self.scalar.raw, rhs.raw) } }
    }

    /// Negation; exact on the raw scalar.
    pub fn neg(self) -> (r: Radians)
        requires
            in_i64(-self.raw_value()),
        ensures
            r.raw_value() == -self.raw_value(),
    {
        Radians { scalar: Fixed { raw: -self.scalar.raw } }
    }

    /// Tolerance comparison: whether the raw scalars differ by at most
    /// `FUZZY_EPS`, absorbing the rounding of scaling and conversion.
    pub fn fuzzy_eq(self, other: Radians) -> (r: bool)
        ensures
            r == fuzzy_val(self.raw_value(), other.raw_value()),
    {
        raw_fuzzy_eq(self.scalar.raw, other.scalar.raw)
    }

    /// Exact equality of the raw scalars.
    pub fn eq(self, other: Radians) -> (r: bool)
        ensures
            r == (self.raw_value() == other.raw_value()),
    {
        self.scalar.raw == other.scalar.raw
    }

    /// Exact inequality of the raw scalars.
    pub fn ne(self, other: Radians) -> (r: bool)
        ensures
            r == (self.raw_value() != other.raw_value()),
    {
        self.scalar.raw != other.scalar.raw
    }

    /// Strict order on the raw scalars.
    pub fn lt(self, other: Radians) -> (r: bool)
        ensures
            r == (self.raw_value() < other.raw_value()),
    {
        self.scalar.raw < other.scalar.raw
    }

    /// Order on the raw scalars.
    pub fn le(self, other: Radians) -> (r: bool)
        ensures
            r == (self.raw_value() <= other.raw_value()),
    {
        self.scalar.raw <= other.scalar.raw
    }

    /// Reverse order on the raw scalars.
    pub fn ge(self, other: Radians) -> (r: bool)
        ensures
            r == (self.raw_value() >= other.raw_value()),
    {
        self.scalar.raw >= other.scalar.raw
    }

    /// Strict reverse order on the raw scalars.
    pub fn gt(self, other: Radians) -> (r: bool)
        ensures
            r == (self.raw_value() > other.raw_value()),
    {
        self.scalar.raw > other.scalar.raw
    }

    /// The textual rendering of a radian angle: the scalar, a space, `rad`.
    pub fn to_str(&self) -> (r: String)
        ensures
            r@ == radians_str(self.raw_value()),
    {
        let mut s = fixed_to_string(self.scalar.raw);
        proof {
            reveal_strlit(" rad");
        }
        s.append(" rad");
        proof {
            assert(s@ =~= radians_str(self.raw_value()));
        }
        s
    }
}

impl Degrees {
    /// The raw scalar this angle carries, as a mathematical integer; the
    /// same value as `Angle::value`, stated without going through the trait.
    pub open spec fn raw_value(self) -> int {
        self.scalar.raw as int
    }

    /// A degree angle from a raw scalar.
    pub fn new(scalar: Fixed) -> (r: Degrees)
        ensures
            r.raw_value() == scalar.value(),
    {
        Degrees { scalar }
    }

    /// Same-unit addition; exact on the raw scalar.
    pub fn add(self, rhs: Degrees) -> (r: Degrees)
        requires
            in_i64(self.raw_value() + rhs.raw_value()),
        ensures
            r.raw_value() == self.raw_value() + rhs.raw_value(),
    {
        Degrees { scalar: Fixed { raw: self.scalar.raw + rhs.scalar.raw } }
    }

    /// Same-unit subtraction; exact on the raw scalar.
    pub fn sub(self, rhs: Degrees) -> (r: Degrees)
        requires
            in_i64(self.raw_value() - rhs.raw_value()),
        ensures
            r.raw_value() == self.raw_value() - rhs.raw_value(),
    {
        Degrees { scalar: Fixed { raw: self.scalar.raw - rhs.scalar.raw } }
    }

    /// Scaling by a raw scalar factor, rounded toward zero.
    pub fn mul(self, rhs: Fixed) -> (r: Degrees)
        requires
            in_i64(tdiv(self.raw_value() * rhs.value(), SCALE as int)),
        ensures
            r.raw_value() == tdiv(self.raw_value() * rhs.value(), SCALE as int),
    {
        Degrees { scalar: Fixed { raw: raw_mul_div(self.scalar.raw, rhs.raw, SCALE) } }
    }

    /// Division by a nonzero raw scalar, rounded toward zero.
    pub fn div(self, rhs: Fixed) -> (r: Degrees)
        requires
            rhs.value() != 0,
            in_i64(tdiv(self.raw_value() * SCALE as int, rhs.value())),
        ensures
            r.raw_value() == tdiv(self.raw_value() * SCALE as int, rhs.value()),
    {
        Degrees { scalar: Fixed { raw: raw_mul_div(self.scalar.raw, SCALE, rhs.raw) } }
    }

    /// The remainder by a nonzero raw scalar divisor; its sign follows this
    /// angle, as the machine remainder's does.
    pub fn modulo(self, rhs: Fixed) -> (r: Degrees)
        requires
            rhs.value() != 0,
        ensures
            r.raw_value() == trem(self.raw_value(), rhs.value()),
    {
        Degrees { scalar: Fixed { raw: trem_i64(self.scalar.raw, rhs.raw) } }
    }

    /// Negation; exact on the raw scalar.
    pub fn neg(self) -> (r: Degrees)
        requires
            in_i64(-self.raw_value()),
        ensures
            r.raw_value() == -self.raw_value(),
    {
        Degrees { scalar: Fixed { raw: -self.scalar.raw } }
    }

    /// Tolerance comparison: whether the raw scalars differ by at most
    /// `FUZZY_EPS`, absorbing the rounding of scaling and conversion.
    pub fn fuzzy_eq(self, other: Degrees) -> (r: bool)
        ensures
            r == fuzzy_val(self.raw_value(), other.raw_value()),
    {
        raw_fuzzy_eq(self.scalar.raw, other.scalar.raw)
    }

    /// Exact equality of the raw scalars.
    pub fn eq(self, other: Degrees) -> (r: bool)
        ensures
            r == (self.raw_value() == other.raw_value()),
    {
        self.scalar.raw == other.scalar.raw
    }

    /// Exact inequality of the raw scalars.
    pub fn ne(self, other: Degrees) -> (r: bool)
        ensures
            r == (self.raw_value() != other.raw_value()),
    {
        self.scalar.raw != other.scalar.raw
    }

    /// Strict order on the raw scalars.
    pub fn lt(self, other: Degrees) -> (r: bool)
        ensures
            r == (self.raw_value() < other.raw_value()),
    {
        self.scalar.raw < other.scalar.raw
    }

    /// Order on the raw scalars.
    pub fn le(self, other: Degrees) -> (r: bool)
        ensures
            r == (self.raw_value() <= other.raw_value()),
    {
        self.scalar.raw <= other.scalar.raw
    }

    /// Reverse order on the raw scalars.
    pub fn ge(self, other: Degrees) -> (r: bool)
        ensures
            r == (self.raw_value() >= other.raw_value()),
    {
        self.scalar.raw >= other.scalar.raw
    }

    /// Strict reverse order on the raw scalars.
    pub fn gt(self, other: Degrees) -> (r: bool)
        ensures
            r == (self.raw_value() > other.raw_value()),
    {
        self.scalar.raw > other.scalar.raw
    }

    /// The textual rendering of a degree angle: the scalar, then the degree
    /// sign.
    pub fn to_str(&self) -> (r: String)
        ensures
            r@ == degrees_str(self.raw_value()),
    {
        let mut s = fixed_to_string(self.scalar.raw);
        proof {
            reveal_strlit("\u{00B0}");
        }
        s.append("\u{00B0}");
        proof {
            assert(s@ =~= degrees_str(self.raw_value()));
        }
        s
    }
}

/// The rendering of a radian angle with raw scalar `v`.
pub open spec fn radians_str(v: int) -> Seq<char> {
    fixed_str(v) + seq![' ', 'r', 'a', 'd']
}

/// The rendering of a degree angle with raw scalar `v`.
pub open spec fn degrees_str(v: int) -> Seq<char> {
    fixed_str(v) + seq!['\u{00B0}']
}

impl Angle for Radians {
    open spec fn value(self) -> int {
        self.raw_value()
    }

    open spec fn full_turn_val() -> int {
        RAD_FULL_TURN as int
    }

    open spec fn half_turn_val() -> int {
        RAD_HALF_TURN as int
    }

    open spec fn quadrant_val() -> int {
        RAD_QUADRANT as int
    }

    open spec fn sextant_val() -> int {
        RAD_SEXTANT as int
    }

    open spec fn octant_val() -> int {
        RAD_OCTANT as int
    }

    open spec fn to_radians_val(v: int) -> int {
        v
    }

    open spec fn to_degrees_val(v: int) -> int {
        rad_to_deg_val(v)
    }

    open spec fn to_degrees_ok(v: int) -> bool {
        in_i64(rad_to_deg_val(v))
    }

    fn full_turn() -> (r: Self) {
        Radians { scalar: Fixed { raw: RAD_FULL_TURN } }
    }

    fn half_turn() -> (r: Self) {
        Radians { scalar: Fixed { raw: RAD_HALF_TURN } }
    }

    fn quadrant() -> (r: Self) {
        Radians { scalar: Fixed { raw: RAD_QUADRANT } }
    }

    fn sextant() -> (r: Self) {
        Radians { scalar: Fixed { raw: RAD_SEXTANT } }
    }

    fn octant() -> (r: Self) {
        Radians { scalar: Fixed { raw: RAD_OCTANT } }
    }

    fn zero() -> (r: Self) {
        Radians { scalar: Fixed { raw: 0 } }
    }

    fn add(self, rhs: Self) -> (r: Self) {
        Radians::add(self, rhs)
    }

    fn sub(self, rhs: Self) -> (r: Self) {
        Radians::sub(self, rhs)
    }

    fn mul(self, rhs: Fixed) -> (r: Self) {
        Radians::mul(self, rhs)
    }

    fn div(self, rhs: Fixed) -> (r: Self) {
        Radians::div(self, rhs)
    }

    fn modulo(self, rhs: Fixed) -> (r: Self) {
        Radians::modulo(self, rhs)
    }

    fn neg(self) -> (r: Self) {
        Radians::neg(self)
    }

    fn to_radians(self) -> (r: Radians) {
        self
    }

    fn to_degrees(self) -> (r: Degrees) {
        Degrees { scalar: Fixed { raw: raw_mul_div(self.scalar.raw, RAD_PER_DEG_DEN, RAD_PER_DEG_NUM) } }
    }

    fn wrap(self) -> (r: Self) {
        Radians { scalar: Fixed { raw: raw_wrap(self.scalar.raw, RAD_FULL_TURN) } }
    }

    fn opposite(self) -> (r: Self) {
        Radians { scalar: Fixed { raw: self.scalar.raw + RAD_HALF_TURN } }.wrap()
    }

    fn fuzzy_eq(self, other: Self) -> (r: bool) {
        Radians::fuzzy_eq(self, other)
    }

    fn eq(self, other: Self) -> (r: bool) {
        Radians::eq(self, other)
    }

    fn ne(self, other: Self) -> (r: bool) {
        Radians::ne(self, other)
    }

    fn lt(self, other: Self) -> (r: bool) {
        Radians::lt(self, other)
    }

    fn le(self, other: Self) -> (r: bool) {
        Radians::le(self, other)
    }

    fn ge(self, other: Self) -> (r: bool) {
        Radians::ge(self, other)
    }

    fn gt(self, other: Self) -> (r: bool) {
        Radians::gt(self, other)
    }
}

impl Angle for Degrees {
    open spec fn value(self) -> int {
        self.raw_value()
    }

    open spec fn full_turn_val() -> int {
        DEG_FULL_TURN as int
    }

    open spec fn half_turn_val() -> int {
        DEG_HALF_TURN as int
    }

    open spec fn quadrant_val() -> int {
        DEG_QUADRANT as int
    }

    open spec fn sextant_val() -> int {
        DEG_SEXTANT as int
    }

    open spec fn octant_val() -> int {
        DEG_OCTANT as int
    }

    open spec fn to_radians_val(v: int) -> int {
        deg_to_rad_val(v)
    }

    open spec fn to_degrees_val(v: int) -> int {
        v
    }

    open spec fn to_degrees_ok(v: int) -> bool {
        true
    }

    fn full_turn() -> (r: Self) {
        Degrees { scalar: Fixed { raw: DEG_FULL_TURN } }
    }

    fn half_turn() -> (r: Self) {
        Degrees { scalar: Fixed { raw: DEG_HALF_TURN } }
    }

    fn quadrant() -> (r: Self) {
        Degrees { scalar: Fixed { raw: DEG_QUADRANT } }
    }

    fn sextant() -> (r: Self) {
        Degrees { scalar: Fixed { raw: DEG_SEXTANT } }
    }

    fn octant() -> (r: Self) {
        Degrees { scalar: Fixed { raw: DEG_OCTANT } }
    }

    fn zero() -> (r: Self) {
        Degrees { scalar: Fixed { raw: 0 } }
    }

    fn add(self, rhs: Self) -> (r: Self) {
        Degrees::add(self, rhs)
    }

    fn sub(self, rhs: Self) -> (r: Self) {
        Degrees::sub(self, rhs)
    }

    fn mul(self, rhs: Fixed) -> (r: Self) {
        Degrees::mul(self, rhs)
    }

    fn div(self, rhs: Fixed) -> (r: Self) {
        Degrees::div(self, rhs)
    }

    fn modulo(self, rhs: Fixed) -> (r: Self) {
        Degrees::modulo(self, rhs)
    }

    fn neg(self) -> (r: Self) {
        Degrees::neg(self)
    }

    fn to_radians(self) -> (r: Radians) {
        proof {
            lemma_deg_to_rad_fits(self.raw_value());
        }
        Radians { scalar: Fixed { raw: raw_mul_div(self.scalar.raw, RAD_PER_DEG_NUM, RAD_PER_DEG_DEN) } }
    }

    fn to_degrees(self) -> (r: Degrees) {
        self
    }

    fn wrap(self) -> (r: Self) {
        Degrees { scalar: Fixed { raw: raw_wrap(self.scalar.raw, DEG_FULL_TURN) } }
    }

    fn opposite(self) -> (r: Self) {
        Degrees { scalar: Fixed { raw: self.scalar.raw + DEG_HALF_TURN } }.wrap()
    }

    fn fuzzy_eq(self, other: Self) -> (r: bool) {
        Degrees::fuzzy_eq(self, other)
    }

    fn eq(self, other: Self) -> (r: bool) {
        Degrees::eq(self, other)
    }

    fn ne(self, other: Self) -> (r: bool) {
        Degrees::ne(self, other)
    }

    fn lt(self, other: Self) -> (r: bool) {
        Degrees::lt(self, other)
    }

    fn le(self, other: Self) -> (r: bool) {
        Degrees::le(self, other)
    }

    fn ge(self, other: Self) -> (r: bool) {
        Degrees::ge(self, other)
    }

    fn gt(self, other: Self) -> (r: bool) {
        Degrees::gt(self, other)
    }
}

} // verus!
