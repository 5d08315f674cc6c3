use motor_pid::float_bits::{clamp, finite_or_zero, is_finite, is_nan, lt};

#[test]
fn finiteness_follows_the_float() {
    assert!(is_finite(1.5f32.to_bits()));
    assert!(is_finite(0.0f32.to_bits()));
    assert!(is_finite((-0.0f32).to_bits()));
    assert!(!is_finite(f32::INFINITY.to_bits()));
    assert!(!is_finite(f32::NEG_INFINITY.to_bits()));
    assert!(!is_finite(f32::NAN.to_bits()));
    assert!(is_nan(f32::NAN.to_bits()));
    assert!(!is_nan(f32::INFINITY.to_bits()));
}

#[test]
fn finite_or_zero_keeps_finite_values() {
    let bits = 123.456f32.to_bits();
    assert_eq!(finite_or_zero(bits), bits);
    let negative = (-7.5f32).to_bits();
    assert_eq!(finite_or_zero(negative), negative);
}

#[test]
fn finite_or_zero_zeroes_nan_and_infinity() {
    let nan = (0.0f32 / 0.0f32).to_bits();
    assert_eq!(f32::from_bits(finite_or_zero(nan)), 0.0);
    assert_eq!(f32::from_bits(finite_or_zero(f32::INFINITY.to_bits())), 0.0);
    assert_eq!(f32::from_bits(finite_or_zero(f32::NEG_INFINITY.to_bits())), 0.0);
}

#[test]
fn lt_agrees_with_float_comparison() {
    let samples: [f32; 9] = [
        -f32::INFINITY,
        -1.5,
        -0.0,
        0.0,
        0.0005,
        0.001,
        0.5,
        1.0,
        f32::INFINITY,
    ];
    for &x in samples.iter() {
        for &y in samples.iter() {
            assert_eq!(lt(x.to_bits(), y.to_bits()), x < y, "lt mismatch on {x} < {y}");
        }
        assert!(!lt(x.to_bits(), f32::NAN.to_bits()));
        assert!(!lt(f32::NAN.to_bits(), x.to_bits()));
    }
}

#[test]
fn clamp_agrees_with_float_clamp() {
    let min: f32 = 0.1;
    let max: f32 = 1.0;
    for &x in [-5.0f32, 0.0, 0.1, 0.5, 1.0, 2.5, f32::INFINITY, -f32::INFINITY].iter() {
        let clamped = clamp(x.to_bits(), min.to_bits(), max.to_bits());
        assert_eq!(f32::from_bits(clamped), x.clamp(min, max), "clamp mismatch on {x}");
    }
    let nan_clamped = clamp(f32::NAN.to_bits(), min.to_bits(), max.to_bits());
    assert!(f32::from_bits(nan_clamped).is_nan());
}
