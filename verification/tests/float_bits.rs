use neutron::float_bits::{equal, int_to_double, is_nan, less, widen, ONE, TEN_TO_MINUS_FIVE, ZERO};

fn samples() -> Vec<f64> {
    vec![
        0.0,
        -0.0,
        1.0,
        -1.0,
        1.5,
        f64::MIN_POSITIVE,
        5e-324,
        -5e-324,
        f64::MAX,
        f64::MIN,
        f64::INFINITY,
        f64::NEG_INFINITY,
        f64::NAN,
        1e-5,
        123456.789,
    ]
}

#[test]
fn constants_are_the_floats_they_stand_for() {
    assert_eq!(f64::from_bits(ZERO), 0.0);
    assert_eq!(f64::from_bits(ONE), 1.0);
    assert_eq!(f64::from_bits(TEN_TO_MINUS_FIVE), 1e-5);
}

#[test]
fn comparing_bits_compares_floats() {
    for a in samples() {
        assert_eq!(is_nan(a.to_bits()), a.is_nan());
        for b in samples() {
            assert_eq!(less(a.to_bits(), b.to_bits()), a < b, "{a} < {b}");
            assert_eq!(equal(a.to_bits(), b.to_bits()), a == b, "{a} == {b}");
        }
    }
}

#[test]
fn widening_keeps_the_value() {
    for x in [
        0.0f32,
        -0.0,
        1.0,
        -2.5,
        1e-45,
        1.1e-44,
        f32::MIN_POSITIVE,
        f32::MAX,
        f32::MIN,
        f32::INFINITY,
        f32::NEG_INFINITY,
        3.14159,
    ] {
        assert_eq!(widen(x.to_bits()), (x as f64).to_bits(), "{x}");
    }
    assert!(f64::from_bits(widen(f32::NAN.to_bits())).is_nan());
}

#[test]
fn integers_become_the_nearest_float() {
    for i in [
        0i64,
        1,
        -1,
        42,
        -7,
        i64::MAX,
        i64::MIN,
        i64::MIN + 1,
        (1 << 53) - 1,
        1 << 53,
        (1 << 53) + 1,
        (1 << 53) + 2,
        (1 << 53) + 3,
        (1 << 54) + 2,
        (1 << 54) + 6,
        (1 << 62) + 257,
        -(1 << 53) - 1,
        0x7fff_ffff_ffff_fc00,
        0x7fff_ffff_ffff_fe00,
        0x7fff_ffff_ffff_fe01,
    ] {
        assert_eq!(int_to_double(i), (i as f64).to_bits(), "{i}");
    }
}
