use fixed32_math::{Fp, FP_SCALE};

#[test]
fn conversions_and_constants() {
    assert_eq!(Fp::from(2).to_bits(), 2 * FP_SCALE);
    assert_eq!(Fp::from(-3).to_bits(), -3 * FP_SCALE);
    assert_eq!(Fp::from_bits(12345).to_bits(), 12345);
    assert_eq!(Fp::zero().to_bits(), 0);
    assert_eq!(Fp::one().to_bits(), FP_SCALE);
    assert_eq!(Fp::neg_one().to_bits(), -FP_SCALE);
    assert_eq!(Fp::frac_pi_2().to_bits(), fixed32::Fp::FRAC_PI_2.to_bits());
    assert!(Fp::zero().is_zero());
    assert!(!Fp::one().is_zero());
    assert_eq!(Fp::default(), Fp::zero());
}

#[test]
fn scalar_arithmetic() {
    assert_eq!(Fp::from(2).add(Fp::from(3)), Fp::from(5));
    assert_eq!(Fp::from(2).sub(Fp::from(3)), Fp::from(-1));
    assert_eq!(Fp::from(2).neg(), Fp::from(-2));
    assert_eq!(Fp::from(-2).abs(), Fp::from(2));
    assert_eq!(Fp::from(2).min(Fp::from(3)), Fp::from(2));
    assert_eq!(Fp::from(2).max(Fp::from(3)), Fp::from(3));
}

#[test]
fn scalar_multiplication_rounds_toward_zero() {
    // 1.5 * 1.5 == 2.25 exactly in Q16.16.
    let one_and_half = Fp::from_bits(98304);
    assert_eq!(one_and_half.mul(one_and_half), Fp::from_bits(147456));
    // Products of a few raw units underflow toward zero from both sides.
    assert_eq!(Fp::from_bits(3).mul(Fp::from_bits(3)), Fp::from_bits(0));
    assert_eq!(Fp::from_bits(-3).mul(Fp::from_bits(3)), Fp::from_bits(0));
}

#[test]
fn scalar_division() {
    assert_eq!(Fp::from(7).div(Fp::from(2)), Fp::from_bits(229376));
    assert_eq!(Fp::from(-7).div(Fp::from(2)), Fp::from_bits(-229376));
    // A division of raw units that does not come out even truncates
    // toward zero: -1.5 raw units becomes -1, not -2.
    assert_eq!(Fp::from_bits(-3).div(Fp::from(2)), Fp::from_bits(-1));
}

#[test]
fn scalar_matches_collaborator() {
    // The verified arithmetic mirrors the fixed-point collaborator bit for
    // bit on a few mixed-sign samples.
    let pairs: [(i32, i32); 4] = [(98304, 49152), (-98304, 49152), (7, -65536), (-123456, -7890)];
    for (a, b) in pairs {
        let ours = Fp::from_bits(a).mul(Fp::from_bits(b)).to_bits();
        let theirs = (fixed32::Fp::from_bits(a) * fixed32::Fp::from_bits(b)).to_bits();
        assert_eq!(ours, theirs);
        let ours_div = Fp::from_bits(a).div(Fp::from_bits(b)).to_bits();
        let theirs_div = (fixed32::Fp::from_bits(a) / fixed32::Fp::from_bits(b)).to_bits();
        assert_eq!(ours_div, theirs_div);
    }
}
