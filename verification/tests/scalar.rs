use ray_tracing::scalar::{Scalar, INFINITY_BITS, SIGN_BIT};

fn s(value: f32) -> Scalar {
    Scalar::from_bits(value.to_bits())
}

/// Values from every region of the format: both zeros, subnormals, ordinary
/// numbers, the largest finite ones, the infinities and NaNs of both signs.
fn samples() -> Vec<f32> {
    vec![
        0.0,
        -0.0,
        f32::from_bits(1),
        f32::from_bits(0x8000_0001),
        f32::MIN_POSITIVE,
        -f32::MIN_POSITIVE,
        1.0e-3,
        -1.0e-3,
        0.1,
        0.5,
        -0.5,
        1.0,
        -1.0,
        1.000_000_1,
        2.999_999_8,
        3.0,
        3.000_000_2,
        -3.0,
        6.283_185_5,
        255.0,
        1.0e30,
        -1.0e30,
        f32::MAX,
        f32::MIN,
        f32::INFINITY,
        f32::NEG_INFINITY,
        f32::NAN,
        -f32::NAN,
        f32::from_bits(0x7f80_0001),
        f32::from_bits(0xffff_ffff),
    ]
}

#[test]
fn lt_agrees_with_the_hardware_on_every_pair() {
    for a in samples() {
        for b in samples() {
            assert_eq!(s(a).lt(s(b)), a < b, "{:?} < {:?}", a, b);
        }
    }
}

#[test]
fn lt_is_false_between_the_two_zeros() {
    assert!(!s(0.0).lt(s(-0.0)));
    assert!(!s(-0.0).lt(s(0.0)));
}

#[test]
fn lt_is_false_as_soon_as_one_side_is_nan() {
    assert!(!s(f32::NAN).lt(s(1.0)));
    assert!(!s(1.0).lt(s(f32::NAN)));
    assert!(!s(f32::NAN).lt(s(f32::NAN)));
    assert!(!s(f32::NEG_INFINITY).lt(s(f32::NAN)));
}

#[test]
fn lt_orders_across_the_sign() {
    assert!(s(-1.0).lt(s(1.0)));
    assert!(!s(1.0).lt(s(-1.0)));
    assert!(s(-2.0).lt(s(-1.0)));
    assert!(s(f32::NEG_INFINITY).lt(s(f32::MIN)));
    assert!(s(f32::MAX).lt(s(f32::INFINITY)));
}

#[test]
fn is_nan_agrees_with_the_hardware() {
    for a in samples() {
        assert_eq!(s(a).is_nan(), a.is_nan(), "{:?}", a);
    }
}

#[test]
fn is_nan_starts_just_above_infinity() {
    assert!(!Scalar::from_bits(INFINITY_BITS).is_nan());
    assert!(Scalar::from_bits(INFINITY_BITS + 1).is_nan());
    assert!(!Scalar::from_bits(SIGN_BIT + INFINITY_BITS).is_nan());
    assert!(Scalar::from_bits(SIGN_BIT + INFINITY_BITS + 1).is_nan());
}

#[test]
fn neg_agrees_with_the_hardware() {
    for a in samples() {
        assert_eq!(s(a).neg().to_bits(), (-a).to_bits(), "{:?}", a);
    }
}

#[test]
fn neg_twice_is_the_identity() {
    for a in samples() {
        assert_eq!(s(a).neg().neg(), s(a));
    }
}

#[test]
fn neg_mirrors_the_order() {
    for a in samples() {
        for b in samples() {
            assert_eq!(s(a).neg().lt(s(b).neg()), s(b).lt(s(a)));
        }
    }
}

#[test]
fn zero_is_positive_zero() {
    assert_eq!(Scalar::zero().to_bits(), 0.0f32.to_bits());
    assert_eq!(Scalar::zero().to_bits(), 0);
}

#[test]
fn bits_round_trip() {
    assert_eq!(Scalar::from_bits(0x4040_0000).to_bits(), 0x4040_0000);
    assert_eq!(f32::from_bits(Scalar::from_bits(0x4040_0000).to_bits()), 3.0);
    assert_eq!(Scalar::from_bits(7), Scalar { bits: 7 });
}
