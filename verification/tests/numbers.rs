use js_to_rust::runtime::number::{
    from_index, is_less_than, is_nonzero, is_not_a_number, negate_bits, to_index,
    MAX_SAFE_INTEGER, NAN, ONE, PI, ZERO,
};

fn bits(x: f64) -> u64 {
    x.to_bits()
}

fn samples() -> Vec<f64> {
    vec![
        0.0,
        -0.0,
        1.0,
        -1.0,
        0.5,
        -0.5,
        2.0,
        3.0,
        1e21,
        -1e21,
        4503599627370496.0,
        9007199254740991.0,
        9007199254740992.0,
        1.5,
        2.5,
        1e-310,
        5e-324,
        f64::MAX,
        f64::MIN,
        f64::MIN_POSITIVE,
        f64::INFINITY,
        f64::NEG_INFINITY,
        f64::NAN,
        -f64::NAN,
        std::f64::consts::PI,
    ]
}

#[test]
fn constants_are_the_patterns_of_their_numbers() {
    assert_eq!(ZERO, bits(0.0));
    assert_eq!(ONE, bits(1.0));
    assert_eq!(PI, bits(std::f64::consts::PI));
    assert_eq!(NAN, bits(f64::NAN));
    assert!(f64::from_bits(NAN).is_nan());
    assert_eq!(MAX_SAFE_INTEGER, 9007199254740991);
}

#[test]
fn nonzero_agrees_with_the_doubles() {
    for x in samples() {
        assert_eq!(is_nonzero(bits(x)), x != 0.0, "{x}");
    }
}

#[test]
fn not_a_number_agrees_with_the_doubles() {
    for x in samples() {
        assert_eq!(is_not_a_number(bits(x)), x.is_nan(), "{x}");
    }
}

#[test]
fn negation_agrees_with_the_doubles() {
    for x in samples() {
        assert_eq!(negate_bits(bits(x)), bits(-x), "{x}");
    }
}

#[test]
fn less_than_agrees_with_the_doubles() {
    for a in samples() {
        for b in samples() {
            assert_eq!(is_less_than(bits(a), bits(b)), a < b, "{a} < {b}");
        }
    }
}

#[test]
fn index_of_naturals() {
    assert_eq!(to_index(bits(0.0)), Some(0));
    assert_eq!(to_index(bits(-0.0)), Some(0));
    assert_eq!(to_index(bits(1.0)), Some(1));
    assert_eq!(to_index(bits(2.0)), Some(2));
    assert_eq!(to_index(bits(3.0)), Some(3));
    assert_eq!(to_index(bits(1000000.0)), Some(1000000));
    assert_eq!(to_index(bits(4503599627370496.0)), Some(4503599627370496));
    assert_eq!(to_index(bits(9007199254740992.0)), Some(9007199254740992));
    assert_eq!(to_index(bits(18014398509481984.0)), Some(18014398509481984));
    assert_eq!(to_index(bits(9223372036854775808.0)), Some(9223372036854775808));
}

#[test]
fn index_of_what_is_no_natural() {
    for x in [
        0.5,
        1.5,
        -1.0,
        -3.0,
        1e-310,
        5e-324,
        0.9999999999999999,
        4503599627370495.5,
        f64::INFINITY,
        f64::NEG_INFINITY,
        f64::NAN,
        1e300,
        18446744073709551616.0,
    ] {
        assert_eq!(to_index(bits(x)), None, "{x}");
    }
}

#[test]
fn index_agrees_with_the_doubles() {
    for x in samples() {
        let expected = if x >= 0.0 && x == x.round() && x < 18446744073709551616.0 {
            Some(x as usize)
        } else {
            None
        };
        assert_eq!(to_index(bits(x)), expected, "{x}");
    }
}

#[test]
fn pattern_of_naturals() {
    for n in [0usize, 1, 2, 3, 4, 5, 7, 8, 255, 256, 1000, 65535, 4294967295, 4503599627370495,
        4503599627370496, 4503599627370497, 9007199254740990, 9007199254740991]
    {
        assert_eq!(from_index(n), bits(n as f64), "{n}");
    }
}

#[test]
fn pattern_of_naturals_with_more_bits_than_a_significand_is_rounded() {
    let two_53: usize = 9007199254740992;
    let cases = [
        two_53,
        two_53 + 1,
        two_53 + 2,
        two_53 + 3,
        two_53 + 4,
        two_53 + 5,
        two_53 * 2 - 1,
        two_53 * 2,
        two_53 * 2 + 1,
        two_53 * 2 + 2,
        two_53 * 2 + 3,
        two_53 * 2 + 6,
        (1 << 60) + 1,
        (1 << 60) + 127,
        (1 << 60) + 128,
        (1 << 60) + 129,
        (1 << 60) + 384,
        1 << 63,
        (1 << 63) + 1024,
        (1 << 63) + 1025,
        (1 << 63) + 3072,
        usize::MAX - 2048,
        usize::MAX - 1024,
        usize::MAX - 1023,
        usize::MAX - 1,
        usize::MAX,
    ];
    for n in cases {
        assert_eq!(from_index(n), bits(n as f64), "{n}");
    }
}

#[test]
fn pattern_and_index_are_inverse() {
    for n in [0usize, 1, 2, 3, 10, 1023, 1024, 123456789, 9007199254740991] {
        assert_eq!(to_index(from_index(n)), Some(n));
    }
}
