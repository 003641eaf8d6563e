use layer_effects::float::{Float32, Float64};

const VALUES: [f64; 21] = [
    0.,
    -0.,
    1.,
    -1.,
    0.5,
    -0.5,
    1.5,
    f64::MIN_POSITIVE,
    -f64::MIN_POSITIVE,
    5e-324,
    -5e-324,
    f64::EPSILON,
    0.9999999999999999,
    1.0000000000000002,
    f64::MAX,
    f64::MIN,
    f64::INFINITY,
    f64::NEG_INFINITY,
    f64::NAN,
    1e300,
    -3.25,
];

fn f(v: f64) -> Float64 {
    Float64 { bits: v.to_bits() }
}

fn g(v: f32) -> Float32 {
    Float32 { bits: v.to_bits() }
}

#[test]
fn comparisons_agree_with_the_machine() {
    for a in VALUES {
        for b in VALUES {
            assert_eq!(f(a).lt(f(b)), a < b, "{a} < {b}");
            assert_eq!(f(a).le(f(b)), a <= b, "{a} <= {b}");
            assert_eq!(f(a) == f(b), a == b, "{a} == {b}");
            assert_eq!(f(a) != f(b), a != b, "{a} != {b}");
            let (x, y) = (a as f32, b as f32);
            assert_eq!(g(x).lt(g(y)), x < y, "{x} < {y}");
            assert_eq!(g(x) == g(y), x == y, "{x} == {y}");
        }
        assert_eq!(f(a).is_nan(), a.is_nan());
        assert_eq!(g(a as f32).is_nan(), a.is_nan());
    }
    let negative_nan = Float64 { bits: f64::NAN.to_bits() | (1 << 63) };
    assert!(negative_nan.is_nan());
    assert!(!negative_nan.lt(Float64::zero()));
    assert!(negative_nan != negative_nan);
}

#[test]
fn max_and_min_agree_with_the_machine() {
    for a in VALUES {
        for b in VALUES {
            let max = f64::from_bits(f(a).max(f(b)).bits);
            let min = f64::from_bits(f(a).min(f(b)).bits);
            assert!(max == a.max(b) || (max.is_nan() && a.max(b).is_nan()));
            assert!(min == a.min(b) || (min.is_nan() && a.min(b).is_nan()));
        }
    }
    assert_eq!(f(2.).max(f(3.)), f(3.));
    assert_eq!(f(2.).min(f(3.)), f(2.));
    assert_eq!(f(f64::NAN).max(f(3.)), f(3.));
    assert_eq!(f(2.).min(f(f64::NAN)), f(2.));
}

#[test]
fn opacity_is_clamped_like_the_machine_does() {
    for v in VALUES {
        let v = v as f32;
        let r = f32::from_bits(g(v).clamp_to_unit().bits);
        let expected = v.clamp(0., 1.);
        assert!(r.to_bits() == expected.to_bits() || (r.is_nan() && expected.is_nan()));
    }
    assert_eq!(g(1.5).clamp_to_unit().bits, 1f32.to_bits());
    assert_eq!(g(-0.5).clamp_to_unit().bits, 0f32.to_bits());
    assert_eq!(g(0.25).clamp_to_unit().bits, 0.25f32.to_bits());
}

#[test]
fn constants_are_the_right_numbers() {
    assert_eq!(Float64::zero().bits, 0f64.to_bits());
    assert_eq!(Float64::one().bits, 1f64.to_bits());
    assert_eq!(Float32::zero().bits, 0f32.to_bits());
    assert_eq!(Float32::one().bits, 1f32.to_bits());
}
