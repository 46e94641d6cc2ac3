use angle::{Angle, Degrees, Fixed, Radians};

fn deg(whole: i64) -> Degrees {
    Degrees::new(Fixed::from_int(whole))
}

fn rad_raw(raw: i64) -> Radians {
    Radians::new(Fixed::new(raw))
}

fn deg_raw(raw: i64) -> Degrees {
    Degrees::new(Fixed::new(raw))
}

#[test]
fn degrees_round_trip() {
    let d = deg(90);
    let back = d.to_radians().to_degrees();
    assert!(back.fuzzy_eq(d));
    assert_eq!(back.scalar.raw(), 89_999_973);
}

#[test]
fn radians_round_trip() {
    let r = Radians::new(Fixed::from_int(1));
    let back = r.to_degrees().to_radians();
    assert!(back.fuzzy_eq(r));
    assert_eq!(back.scalar.raw(), 999_999);
}

#[test]
fn wrap_idempotent_degrees() {
    let d = deg(1000);
    assert!(d.wrap().wrap().eq(d.wrap()));
    let n = deg(-1000);
    assert!(n.wrap().wrap().eq(n.wrap()));
}

#[test]
fn wrap_idempotent_radians() {
    let r = rad_raw(123_456_789);
    assert!(r.wrap().wrap().eq(r.wrap()));
}

#[test]
fn wrap_range_degrees() {
    let w = deg(-1234).wrap();
    assert!(w.ge(Degrees::zero()));
    assert!(w.lt(Degrees::full_turn()));
}

#[test]
fn wrap_range_radians() {
    let w = rad_raw(-987_654_321).wrap();
    assert!(w.ge(Radians::zero()));
    assert!(w.lt(Radians::full_turn()));
}

#[test]
fn negative_wrap_degrees() {
    assert!(deg(-90).wrap().fuzzy_eq(deg(270)));
}

#[test]
fn negative_wrap_radians() {
    // minus pi over two wraps up to three pi over two
    assert!(rad_raw(-1_570_796).wrap().fuzzy_eq(rad_raw(4_712_389)));
}

#[test]
fn wrap_of_whole_turns_is_zero() {
    assert!(deg(360).wrap().eq(Degrees::zero()));
    assert!(deg(720).wrap().eq(Degrees::zero()));
    assert!(deg(-360).wrap().eq(Degrees::zero()));
    assert!(deg(540).wrap().eq(deg(180)));
}

#[test]
fn opposite_of_zero() {
    assert!(deg(0).opposite().fuzzy_eq(deg(180)));
}

#[test]
fn opposite_wraps() {
    assert!(deg(270).opposite().fuzzy_eq(deg(90)));
}

#[test]
fn opposite_commutes_with_wrap() {
    let d = deg(-450);
    assert!(d.wrap().opposite().fuzzy_eq(d.opposite().wrap()));
}

#[test]
fn turn_fraction_quadrant() {
    assert!(Degrees::quadrant().fuzzy_eq(deg(90)));
}

#[test]
fn turn_fraction_sextant() {
    // pi over three at the scalar's precision
    assert!(Radians::sextant().fuzzy_eq(rad_raw(1_047_198)));
}

#[test]
fn degree_constants_exact() {
    assert_eq!(Degrees::full_turn().scalar.raw(), 360_000_000);
    assert_eq!(Degrees::half_turn().scalar.raw(), 180_000_000);
    assert_eq!(Degrees::quadrant().scalar.raw(), 90_000_000);
    assert_eq!(Degrees::sextant().scalar.raw(), 60_000_000);
    assert_eq!(Degrees::octant().scalar.raw(), 45_000_000);
    assert_eq!(Degrees::zero().scalar.raw(), 0);
}

#[test]
fn radian_constants_exact() {
    assert_eq!(Radians::full_turn().scalar.raw(), 6_283_185);
    assert_eq!(Radians::half_turn().scalar.raw(), 3_141_593);
    assert_eq!(Radians::quadrant().scalar.raw(), 1_570_796);
    assert_eq!(Radians::sextant().scalar.raw(), 1_047_198);
    assert_eq!(Radians::octant().scalar.raw(), 785_398);
    assert_eq!(Radians::zero().scalar.raw(), 0);
}

#[test]
fn radians_display() {
    assert_eq!(Radians::new(Fixed::from_int(1)).to_str(), "1 rad");
}

#[test]
fn degrees_display() {
    assert_eq!(deg(180).to_str(), "180\u{00B0}");
}

#[test]
fn display_fraction() {
    assert_eq!(rad_raw(1_570_796).to_str(), "1.570796 rad");
}

#[test]
fn display_trims_trailing_zeros() {
    assert_eq!(deg_raw(-500_000).to_str(), "-0.5\u{00B0}");
    assert_eq!(deg_raw(10_250_000).to_str(), "10.25\u{00B0}");
}

#[test]
fn display_zero() {
    assert_eq!(deg(0).to_str(), "0\u{00B0}");
    assert_eq!(Radians::zero().to_str(), "0 rad");
}

#[test]
fn add_sub_restore() {
    let a = deg_raw(123_456_789);
    let b = deg_raw(-987_654);
    assert!(a.add(b).sub(b).eq(a));
    assert!(a.add(b).sub(b).fuzzy_eq(a));
}

#[test]
fn add_and_sub_exact() {
    assert!(deg(90).add(deg(45)).eq(deg(135)));
    assert!(deg(90).sub(deg(45)).eq(deg(45)));
    assert!(rad_raw(5).add(rad_raw(-8)).eq(rad_raw(-3)));
}

#[test]
fn mul_scales_exactly() {
    // 10 degrees times two and a half
    assert!(deg(10).mul(Fixed::new(2_500_000)).eq(deg(25)));
    // rounding of the product is toward zero
    assert!(deg_raw(-3).mul(Fixed::new(500_000)).eq(deg_raw(-1)));
}

#[test]
fn div_scales_exactly() {
    assert!(deg(10).div(Fixed::from_int(4)).eq(deg_raw(2_500_000)));
    // rounding of the quotient is toward zero
    assert!(deg(-7).div(Fixed::from_int(2)).eq(deg_raw(-3_500_000)));
}

#[test]
fn modulo_sign_follows_dividend() {
    assert!(deg(-90).modulo(Fixed::from_int(360)).eq(deg(-90)));
    assert!(deg(450).modulo(Fixed::from_int(360)).eq(deg(90)));
}

#[test]
fn neg_flips_sign() {
    assert!(deg(90).neg().eq(deg(-90)));
    assert!(rad_raw(-7).neg().eq(rad_raw(7)));
}

#[test]
fn conversion_within_unit_is_identity() {
    let r = rad_raw(123_456);
    assert!(r.to_radians().eq(r));
    let d = deg_raw(-654_321);
    assert!(d.to_degrees().eq(d));
}

#[test]
fn conversion_meets_constants() {
    assert!(deg(180).to_radians().fuzzy_eq(Radians::half_turn()));
    assert!(Radians::half_turn().to_degrees().fuzzy_eq(deg(180)));
    assert!(deg(90).to_radians().fuzzy_eq(Radians::quadrant()));
}

#[test]
fn fuzzy_eq_boundary() {
    assert!(deg_raw(0).fuzzy_eq(deg_raw(100)));
    assert!(!deg_raw(0).fuzzy_eq(deg_raw(101)));
    assert!(rad_raw(-50).fuzzy_eq(rad_raw(50)));
}

#[test]
fn exact_eq_rejects_rounding() {
    // one raw step apart: fuzzy-equal, not equal
    assert!(deg_raw(1).fuzzy_eq(deg_raw(2)));
    assert!(!deg_raw(1).eq(deg_raw(2)));
    assert!(deg_raw(1).ne(deg_raw(2)));
}

#[test]
fn ordering_is_scalar_order() {
    assert!(deg(-90).lt(deg(90)));
    assert!(deg(90).gt(deg(-90)));
    assert!(deg(90).le(deg(90)));
    assert!(deg(90).ge(deg(90)));
    assert!(!deg(90).lt(deg(90)));
    assert!(deg(90).eq(deg(90)));
}
