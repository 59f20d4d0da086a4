//! The bit-level model of doubles agrees with IEEE-754 arithmetic as the
//! hardware implements it: constants, classification, sign operations and
//! the ordering all match `f64` exactly, NaN and signed zeros included.

use ode_core::fp;
use ode_core::fp::Real;

fn r(x: f64) -> Real {
    Real::from_bits(x.to_bits())
}

fn samples() -> Vec<f64> {
    vec![
        f64::NEG_INFINITY,
        -1e300,
        -2.5,
        -1.0,
        -1e-308,
        -5e-324,
        -0.0,
        0.0,
        5e-324,
        1e-308,
        1e-6,
        0.2,
        0.9,
        1.0,
        2.5,
        10.0,
        1e300,
        f64::INFINITY,
        f64::NAN,
        -f64::NAN,
    ]
}

#[test]
fn constants_match_ieee_bits() {
    assert_eq!(fp::BITS_ZERO, 0.0f64.to_bits());
    assert_eq!(fp::BITS_ONE, 1.0f64.to_bits());
    assert_eq!(fp::BITS_INF, f64::INFINITY.to_bits());
    assert_eq!(ode_core::common::BITS_RTOL_FLOOR, (100.0 * f64::EPSILON).to_bits());
    assert_eq!(ode_core::common::BITS_SCALE_THRESHOLD, 1e-5f64.to_bits());
    assert_eq!(ode_core::common::BITS_H0_FALLBACK, 1e-6f64.to_bits());
    assert_eq!(ode_core::common::BITS_DERIVATIVE_THRESHOLD, 1e-15f64.to_bits());
    assert_eq!(ode_core::controller::BITS_MIN_FACTOR, 0.2f64.to_bits());
    assert_eq!(ode_core::controller::BITS_MAX_FACTOR, 10.0f64.to_bits());
    assert_eq!(ode_core::controller::BITS_SAFETY, 0.9f64.to_bits());
}

#[test]
fn classification_matches_ieee() {
    for &a in &samples() {
        assert_eq!(r(a).is_nan(), a.is_nan(), "is_nan of {a}");
        assert_eq!(r(a).is_finite(), a.is_finite(), "is_finite of {a}");
        assert_eq!(r(a).is_zero(), a == 0.0 && !a.is_nan(), "is_zero of {a}");
    }
    assert!(Real::zero().is_zero());
    assert!(Real::one().is_finite());
    assert!(!Real::infinity().is_finite());
    assert!(!Real::infinity().is_nan());
}

#[test]
fn ordering_matches_ieee() {
    for &a in &samples() {
        for &b in &samples() {
            assert_eq!(r(a).lt(&r(b)), a < b, "lt of {a} and {b}");
            assert_eq!(r(a).le(&r(b)), a <= b, "le of {a} and {b}");
            assert_eq!(r(a).eq_val(&r(b)), a == b, "eq of {a} and {b}");
        }
    }
}

#[test]
fn sign_operations_match_ieee() {
    for &a in &samples() {
        assert_eq!(r(a).abs().bits, a.abs().to_bits(), "abs of {a}");
        assert_eq!(r(a).neg().bits, (-a).to_bits(), "neg of {a}");
    }
}

#[test]
fn min_max_follow_their_contract() {
    for &a in &samples() {
        for &b in &samples() {
            let expect_min = if b < a { b } else { a };
            let expect_max = if a < b { b } else { a };
            assert_eq!(r(a).min_val(&r(b)).bits, expect_min.to_bits(), "min of {a} and {b}");
            assert_eq!(r(a).max_val(&r(b)).bits, expect_max.to_bits(), "max of {a} and {b}");
        }
    }
}
