use worldgen::climate::{gravity_modifier, mountain_blend, noise_scale};
use worldgen::noise::{fbm, isqrt, ridged};

#[test]
fn fbm_exact_values() {
    assert_eq!(fbm(&vec![1_000_000]), 1_000_000);
    assert_eq!(fbm(&vec![-1_000_000]), -1_000_000);
    // Weights 2 and 1, total 3.
    assert_eq!(fbm(&vec![1_000_000, -1_000_000]), 333_333);
    assert_eq!(fbm(&vec![0, 0, 0]), 0);
    // Rounded down: -2/3 becomes -1.
    assert_eq!(fbm(&vec![-1, 0]), -1);
    // Weights 4, 2, 1, total 7.
    assert_eq!(fbm(&vec![700_000, 0, 0]), 400_000);
    let all_max = vec![1_000_000; 16];
    assert_eq!(fbm(&all_max), 1_000_000);
}

#[test]
fn ridged_fold() {
    assert_eq!(ridged(0), 1_000_000);
    assert_eq!(ridged(-250_000), 750_000);
    assert_eq!(ridged(250_000), 750_000);
    assert_eq!(ridged(1_000_000), 0);
}

#[test]
fn integer_square_root() {
    assert_eq!(isqrt(0), 0);
    assert_eq!(isqrt(1), 1);
    assert_eq!(isqrt(15), 3);
    assert_eq!(isqrt(16), 4);
    assert_eq!(isqrt(1_000_000_000_000), 1_000_000);
    assert_eq!(isqrt(0x3FFF_FFFF_FFFF_FFFF), 0x7FFF_FFFF);
}

#[test]
fn gravity_scaling() {
    assert_eq!(gravity_modifier(40_075), 1_000_000);
    assert_eq!(gravity_modifier(80_150), 2_000_000);
    assert_eq!(gravity_modifier(20_037), 499_987);
    // Clamped at both ends; a zero circumference is floored first.
    assert_eq!(gravity_modifier(1_000), 100_000);
    assert_eq!(gravity_modifier(0), 100_000);
    assert_eq!(gravity_modifier(1_000_000), 5_000_000);
}

#[test]
fn mountain_blend_values() {
    assert_eq!(mountain_blend(1_000_000), 350_000);
    assert_eq!(mountain_blend(4_000_000), 175_000);
    assert_eq!(mountain_blend(100_000), 1_106_799);
}

#[test]
fn noise_scale_values() {
    assert_eq!(noise_scale(40_075), 1_000_000);
    assert_eq!(noise_scale(80_150), 500_000);
    assert_eq!(noise_scale(0), 40_075_000_000);
}
