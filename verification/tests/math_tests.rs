//! The fixed-point scalar, the Bézier evaluation and the result checksum.

use stm32f207_hal::bezier::{Curve, Point};
use stm32f207_hal::crc::{calc_crc32, calc_crc8};
use stm32f207_hal::fixed_point::FixedPoint;

fn fp(value: i32) -> FixedPoint {
    FixedPoint::new(value)
}

#[test]
fn new_scales_by_the_fraction_bits() {
    assert_eq!(fp(1).into_primitive(), 4096);
    assert_eq!(fp(-3).into_primitive(), -3 * 4096);
    assert_eq!(fp(0).into_primitive(), 0);
}

#[test]
fn arithmetic_matches_the_fixed_point_rules() {
    assert_eq!(fp(2).add(fp(3)).into_primitive(), 5 * 4096);
    assert_eq!(fp(2).sub(fp(3)).into_primitive(), -4096);
    assert_eq!(fp(2).mul(fp(3)).into_primitive(), 6 * 4096);
    assert_eq!(fp(7).mul_i32(3).into_primitive(), 21 * 4096);

    let mut accumulator = fp(1);
    accumulator.add_assign(fp(2));
    assert_eq!(accumulator.into_primitive(), 3 * 4096);

    // Halves multiply exactly: 0.5 * 0.5 == 0.25.
    let half = fp(1).div_i32(2);
    assert_eq!(half.into_primitive(), 2048);
    assert_eq!(half.mul(half).into_primitive(), 1024);
}

#[test]
fn division_truncates_toward_zero() {
    assert_eq!(fp(3).div_i32(2).into_primitive(), 6144);
    assert_eq!(fp(-3).div_i32(2).into_primitive(), -6144);
    assert_eq!(fp(7).div(fp(2)).into_primitive(), 3 * 4096 + 2048);
    assert_eq!(fp(-7).div(fp(2)).into_primitive(), -(3 * 4096 + 2048));
    assert_eq!(fp(7).div(fp(-2)).into_primitive(), -(3 * 4096 + 2048));
    // 1/3 rounds toward zero on the raw word.
    assert_eq!(fp(1).div_i32(3).into_primitive(), 1365);
    assert_eq!(fp(-1).div_i32(3).into_primitive(), -1365);
}

#[test]
fn from_step_and_from_decimal() {
    assert_eq!(FixedPoint::from_step(5, 10).into_primitive(), 2048);
    assert_eq!(FixedPoint::from_step(0, 10).into_primitive(), 0);
    assert_eq!(FixedPoint::from_i32(9).into_primitive(), 9 * 4096);
    // The fraction digits are dropped.
    assert_eq!(FixedPoint::from_decimal(-1, 7, 5, 10).into_primitive(), -7 * 4096);
}

/// The curve's ends are its endpoints, and the midpoint value carries the
/// documented rounding exactly.
#[test]
fn parametric_rounding_is_exact() {
    assert_eq!(
        FixedPoint::parametric(fp(0), fp(1), fp(2), fp(3), fp(4)).into_primitive(),
        4096
    );
    assert_eq!(
        FixedPoint::parametric(fp(1), fp(1), fp(2), fp(3), fp(4)).into_primitive(),
        4 * 4096
    );
    let half = fp(1).div_i32(2);
    assert_eq!(
        FixedPoint::parametric(half, fp(1), fp(2), fp(3), fp(4)).into_primitive(),
        10240
    );
}

#[test]
fn curve_evaluates_both_coordinates() {
    let curve = Curve {
        p1: Point { x: fp(0), y: fp(1) },
        c1: Point { x: fp(1), y: fp(2) },
        c2: Point { x: fp(2), y: fp(3) },
        p2: Point { x: fp(3), y: fp(4) },
    };
    let start = curve.parametric(fp(0));
    assert_eq!(start.x.into_primitive(), 0);
    assert_eq!(start.y.into_primitive(), 4096);

    let end = curve.parametric(fp(1));
    assert_eq!(end.x.into_primitive(), 3 * 4096);
    assert_eq!(end.y.into_primitive(), 4 * 4096);
}

#[test]
fn point_translation_is_coordinate_wise() {
    let mut point = Point { x: fp(1), y: fp(2) };
    point.add_assign(Point { x: fp(10), y: fp(-20) });
    assert_eq!(point.x.into_primitive(), 11 * 4096);
    assert_eq!(point.y.into_primitive(), -18 * 4096);
}

/// The benchmark's inner workload on one known curve: the accumulated point
/// over all ten parameter steps, exact to the raw word.
#[test]
fn interpolation_accumulates_exactly() {
    let curve = Curve {
        p1: Point { x: fp(0), y: fp(1) },
        c1: Point { x: fp(1), y: fp(2) },
        c2: Point { x: fp(2), y: fp(3) },
        p2: Point { x: fp(3), y: fp(4) },
    };
    let curves = vec![curve];
    let mut interpolated = vec![Point::default()];

    stm32f207_hal::bezier::interpolate_points(&curves, &mut interpolated);

    assert_eq!(interpolated[0].x.into_primitive(), 55218);
    assert_eq!(interpolated[0].y.into_primitive(), 96134);
}

#[test]
fn crc_of_known_words() {
    assert_eq!(calc_crc8(0x55, 0), 0x3FC0);
    assert_eq!(calc_crc8(0xFF, 0xABCD), 0xD52A);
    assert_eq!(calc_crc32(0xDEAD_BEEF, 0), 0x38A8);
    assert_eq!(calc_crc32(1, 0), 0xFC01);
    assert_eq!(calc_crc8(0, 0), 0);
}
