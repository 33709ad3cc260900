use search_sampling::Lambda;

/// Numbers from every region of binary64, in ascending order but for the two
/// zeros, which are equal.
fn ascending_numbers() -> Vec<f64> {
    vec![
        f64::NEG_INFINITY,
        f64::MIN,
        -1.0e300,
        -4900.0,
        -2.0,
        -1.0000000000000002,
        -1.0,
        -0.9999999999999999,
        -0.5,
        -f64::MIN_POSITIVE,
        -2.225073858507201e-308,
        -5e-324,
        -0.0,
        0.0,
        5e-324,
        1e-323,
        2.225073858507201e-308,
        f64::MIN_POSITIVE,
        2.2250738585072024e-308,
        1e-300,
        0.19342359767891684,
        0.3,
        0.5,
        0.9999999999999999,
        1.0,
        1.0000000000000002,
        1.9999999999999998,
        2.0,
        33.33333333333333,
        33.333333333333336,
        50.0,
        4900.0,
        1.0e300,
        8.98846567431158e307,
        1.7976931348623155e308,
        f64::MAX,
        f64::INFINITY,
    ]
}

fn lambda(x: f64) -> Lambda {
    Lambda::from_bits(x.to_bits()).unwrap()
}

#[test]
fn lt_agrees_with_the_order_of_the_numbers() {
    let numbers = ascending_numbers();
    for a in numbers.iter() {
        for b in numbers.iter() {
            assert_eq!(lambda(*a).lt(&lambda(*b)), a < b, "{:e} < {:e}", a, b);
        }
    }
}

#[test]
fn lt_is_irreflexive() {
    for a in ascending_numbers() {
        assert!(!lambda(a).lt(&lambda(a)));
    }
}

#[test]
fn the_two_zeros_are_equal() {
    assert!(!lambda(-0.0).lt(&lambda(0.0)));
    assert!(!lambda(0.0).lt(&lambda(-0.0)));
    assert!(lambda(-0.0).lt(&lambda(5e-324)));
    assert!(lambda(-5e-324).lt(&lambda(0.0)));
    assert!(lambda(-5e-324).lt(&lambda(-0.0)));
    assert!(lambda(0.0).lt(&lambda(5e-324)));
}

#[test]
fn neighbouring_patterns_are_ordered() {
    // Across the step from the largest subnormal number to the smallest
    // normal one, across a change of exponent, and up to infinity.
    let steps: [u64; 6] = [
        0x0000_0000_0000_0000,
        0x000f_ffff_ffff_ffff,
        0x001f_ffff_ffff_ffff,
        0x3fef_ffff_ffff_ffff,
        0x7fdf_ffff_ffff_ffff,
        0x7fef_ffff_ffff_ffff,
    ];
    for bits in steps {
        let below = Lambda::from_bits(bits).unwrap();
        let above = Lambda::from_bits(bits + 1).unwrap();
        assert!(below.lt(&above));
        assert!(!above.lt(&below));
        assert!(f64::from_bits(bits) < f64::from_bits(bits + 1));
        let sign = 0x8000_0000_0000_0000_u64;
        let negative_below = Lambda::from_bits(sign + bits + 1).unwrap();
        let negative_above = Lambda::from_bits(sign + bits).unwrap();
        assert!(negative_below.lt(&negative_above));
        assert!(!negative_above.lt(&negative_below));
    }
}

#[test]
fn lt_agrees_with_the_numbers_on_scattered_patterns() {
    // A fixed pseudo-random walk over bit patterns.
    let mut state: u64 = 0x9e37_79b9_7f4a_7c15;
    let mut patterns = Vec::new();
    while patterns.len() < 300 {
        state = state.wrapping_mul(6364136223846793005).wrapping_add(1442695040888963407);
        let bits = state ^ (state >> 29);
        if !f64::from_bits(bits).is_nan() {
            patterns.push(bits);
        }
    }
    for a in patterns.iter() {
        for b in patterns.iter() {
            let expected = f64::from_bits(*a) < f64::from_bits(*b);
            let got = Lambda::from_bits(*a).unwrap().lt(&Lambda::from_bits(*b).unwrap());
            assert_eq!(got, expected, "{:#x} < {:#x}", a, b);
        }
    }
}

#[test]
fn from_bits_refuses_every_kind_of_nan() {
    assert!(Lambda::from_bits(f64::NAN.to_bits()).is_none());
    assert!(Lambda::from_bits((-f64::NAN).to_bits()).is_none());
    assert!(Lambda::from_bits((0.0_f64 / 0.0).to_bits()).is_none());
    assert!(Lambda::from_bits((f64::INFINITY - f64::INFINITY).to_bits()).is_none());
    assert!(Lambda::from_bits((0.0_f64 * f64::INFINITY).to_bits()).is_none());
    // Quiet and signalling, both signs, smallest and largest payload.
    assert!(Lambda::from_bits(0x7ff0_0000_0000_0001).is_none());
    assert!(Lambda::from_bits(0x7ff8_0000_0000_0000).is_none());
    assert!(Lambda::from_bits(0x7fff_ffff_ffff_ffff).is_none());
    assert!(Lambda::from_bits(0xfff0_0000_0000_0001).is_none());
    assert!(Lambda::from_bits(0xfff8_0000_0000_0000).is_none());
    assert!(Lambda::from_bits(0xffff_ffff_ffff_ffff).is_none());
}

#[test]
fn from_bits_takes_every_number() {
    for x in ascending_numbers() {
        assert!(Lambda::from_bits(x.to_bits()).is_some(), "{:e}", x);
    }
    assert!(Lambda::from_bits(0x7ff0_0000_0000_0000).is_some());
    assert!(Lambda::from_bits(0xfff0_0000_0000_0000).is_some());
    assert!(Lambda::from_bits(0x8000_0000_0000_0000).is_some());
}

#[test]
fn from_bits_agrees_with_is_nan_on_scattered_patterns() {
    let mut state: u64 = 0x2545_f491_4f6c_dd1d;
    for _ in 0..20000 {
        state ^= state << 13;
        state ^= state >> 7;
        state ^= state << 17;
        // Force the exponent field to all ones in half of the cases, so that
        // NaN patterns are as frequent as numbers.
        let bits = if state & 1 == 0 { state | 0x7ff0_0000_0000_0000 } else { state };
        assert_eq!(Lambda::from_bits(bits).is_none(), f64::from_bits(bits).is_nan(), "{:#x}", bits);
    }
}

#[test]
fn to_bits_gives_back_the_pattern() {
    for x in ascending_numbers() {
        assert_eq!(lambda(x).to_bits(), x.to_bits());
    }
    assert_eq!(lambda(-0.0).to_bits(), 0x8000_0000_0000_0000);
    assert_eq!(lambda(0.0).to_bits(), 0);
    assert_eq!(lambda(1.0).to_bits(), 0x3ff0_0000_0000_0000);
}

#[test]
fn a_copy_is_the_same_lambda() {
    let first = lambda(2.5);
    let copy = first;
    let clone = first.clone();
    assert_eq!(copy.to_bits(), first.to_bits());
    assert_eq!(clone.to_bits(), first.to_bits());
}
