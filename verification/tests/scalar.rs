use guiorder::scalar::{Scalar, INFINITY_BITS, NEG_INFINITY_BITS, SIGN_BIT};

fn scalar(x: f32) -> Scalar {
    Scalar::from_bits(x.to_bits())
}

fn samples() -> Vec<f32> {
    vec![
        f32::NEG_INFINITY,
        f32::MIN,
        -1.0e10,
        -2.5,
        -1.0,
        -f32::MIN_POSITIVE,
        -1.0e-45,
        -0.0,
        0.0,
        1.0e-45,
        f32::MIN_POSITIVE,
        0.1,
        1.0,
        2.5,
        100_000.0,
        f32::MAX,
        f32::INFINITY,
        f32::NAN,
        -f32::NAN,
        f32::from_bits(0x7F80_0001),
        f32::from_bits(0xFFFF_FFFF),
    ]
}

#[test]
fn bit_patterns() {
    assert_eq!(INFINITY_BITS, f32::INFINITY.to_bits());
    assert_eq!(NEG_INFINITY_BITS, f32::NEG_INFINITY.to_bits());
    assert_eq!(SIGN_BIT, (-0.0f32).to_bits());
    assert_eq!(Scalar::new_zero().to_bits(), 0.0f32.to_bits());
    assert_eq!(Scalar::new_infinity().to_bits(), f32::INFINITY.to_bits());
    assert_eq!(Scalar::new_neg_infinity().to_bits(), f32::NEG_INFINITY.to_bits());
    assert_eq!(Scalar::from_bits(0x4020_0000).to_bits(), 2.5f32.to_bits());
}

#[test]
fn sign_tests_agree_with_the_comparisons_of_the_machine() {
    for x in samples() {
        assert_eq!(scalar(x).positive(), x > 0.0, "{} > 0", x);
        assert_eq!(scalar(x).zero_or_negative(), x <= 0.0, "{} <= 0", x);
        assert_eq!(scalar(x).negative(), x < 0.0, "{} < 0", x);
        assert_eq!(scalar(x).nan(), x.is_nan(), "{} is nan", x);
        assert_eq!(scalar(x).infinite(), x.is_infinite(), "{} is infinite", x);
    }
}

#[test]
fn comparisons_agree_with_the_comparisons_of_the_machine() {
    for a in samples() {
        for b in samples() {
            assert_eq!(scalar(a).gt(scalar(b)), a > b, "{} > {}", a, b);
            assert_eq!(scalar(a).lt(scalar(b)), a < b, "{} < {}", a, b);
            assert_eq!(scalar(a).le(scalar(b)), a <= b, "{} <= {}", a, b);
        }
    }
}
