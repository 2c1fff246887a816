use physics::{Number, FRAC_ONE, HALF_BITS};

fn n(i: i64) -> Number {
    Number::from_int(i)
}

#[test]
fn from_int_scales_by_frac_one() {
    assert_eq!(n(0).to_bits(), 0);
    assert_eq!(n(1).to_bits(), FRAC_ONE);
    assert_eq!(n(-3).to_bits(), -3 * FRAC_ONE);
    assert_eq!(Number::from_bits(HALF_BITS).to_bits(), FRAC_ONE / 2);
}

#[test]
fn add_sub_neg_abs_exact() {
    assert_eq!(n(2).add(n(3)).to_bits(), 5 * FRAC_ONE);
    assert_eq!(n(2).sub(n(5)).to_bits(), -3 * FRAC_ONE);
    assert_eq!(n(-4).neg().to_bits(), 4 * FRAC_ONE);
    assert_eq!(n(-4).abs().to_bits(), 4 * FRAC_ONE);
    assert_eq!(n(4).abs().to_bits(), 4 * FRAC_ONE);
    assert_eq!(Number::from_bits(i128::MIN).neg().to_bits(), i128::MIN);
}

#[test]
fn add_wraps_like_the_bit_pattern() {
    let max = Number::from_bits(i128::MAX);
    let one_ulp = Number::from_bits(1);
    assert_eq!(max.add(one_ulp).to_bits(), i128::MIN);
}

#[test]
fn mul_exact_and_rounding() {
    assert_eq!(n(2).mul(n(3)).to_bits(), 6 * FRAC_ONE);
    assert_eq!(n(-2).mul(n(3)).to_bits(), -6 * FRAC_ONE);
    // a product smaller than one bit of the encoding rounds toward negative
    // infinity: positive underflow gives zero, negative underflow gives -1
    assert_eq!(Number::from_bits(1).mul(Number::from_bits(1)).to_bits(), 0);
    assert_eq!(Number::from_bits(-1).mul(Number::from_bits(1)).to_bits(), -1);
}

#[test]
fn div_exact_and_rounding() {
    assert_eq!(n(6).div(n(3)).to_bits(), 2 * FRAC_ONE);
    assert_eq!(n(1).div(n(4)).to_bits(), FRAC_ONE / 4);
    // division rounds toward zero: -1 bit over two is zero, not -1
    assert_eq!(Number::from_bits(-1).div(n(2)).to_bits(), 0);
    assert_eq!(n(-7).div(n(2)).to_bits(), -7 * FRAC_ONE / 2);
}

#[test]
fn sqrt_exact_values() {
    assert_eq!(n(4).sqrt().to_bits(), 2 * FRAC_ONE);
    assert_eq!(n(9).sqrt().to_bits(), 3 * FRAC_ONE);
    assert_eq!(n(0).sqrt().to_bits(), 0);
    // one quarter: the bit pattern 2^62 has integer square root 2^31,
    // scaled back by 2^32 this is one half
    assert_eq!(Number::from_bits(FRAC_ONE / 4).sqrt().to_bits(), HALF_BITS);
}

#[test]
fn comparisons_follow_bit_order() {
    assert!(n(-2).lt(n(3)));
    assert!(!n(3).lt(n(-2)));
    assert!(n(3).le(n(3)));
    assert_eq!(n(3), n(3));
    assert_ne!(n(3), n(4));
}

#[test]
fn mul_matches_fixed_crate() {
    let samples: [i128; 8] = [
        0,
        1,
        -1,
        FRAC_ONE,
        -FRAC_ONE,
        3 * FRAC_ONE / 7,
        -(5 * FRAC_ONE) - 12345,
        i128::MAX / 3,
    ];
    for &a in &samples {
        for &b in &samples {
            let ours = Number::from_bits(a).mul(Number::from_bits(b)).to_bits();
            let theirs = fixed::types::I64F64::from_bits(a)
                .wrapping_mul(fixed::types::I64F64::from_bits(b))
                .to_bits();
            assert_eq!(ours, theirs, "mul mismatch for {a} * {b}");
        }
    }
}

#[test]
fn div_matches_fixed_crate() {
    let samples: [i128; 7] = [
        0,
        1,
        -1,
        FRAC_ONE,
        -FRAC_ONE,
        3 * FRAC_ONE / 7,
        -(5 * FRAC_ONE) - 12345,
    ];
    for &a in &samples {
        for &b in &samples {
            if b == 0 {
                continue;
            }
            let ours = Number::from_bits(a).div(Number::from_bits(b)).to_bits();
            let theirs = fixed::types::I64F64::from_bits(a)
                .wrapping_div(fixed::types::I64F64::from_bits(b))
                .to_bits();
            assert_eq!(ours, theirs, "div mismatch for {a} / {b}");
        }
    }
}

#[test]
fn sqrt_matches_fixed_sqrt_crate() {
    let samples: [i128; 6] = [0, 1, FRAC_ONE, 2 * FRAC_ONE, 16 * FRAC_ONE, i128::MAX / 5];
    for &a in &samples {
        let ours = Number::from_bits(a).sqrt().to_bits();
        let theirs = fixed_sqrt::FixedSqrt::sqrt(fixed::types::I64F64::from_bits(a)).to_bits();
        assert_eq!(ours, theirs, "sqrt mismatch for {a}");
    }
}
