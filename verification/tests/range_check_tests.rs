//! Tests for the range/threshold gate: limb decomposition and `x < t`.
use poneglyphdb::config::PoneglyphConfig;
use poneglyphdb::range_check::{
    check_decomposition_witness, check_less_than_witness, RangeCheckChip,
};

fn chip() -> RangeCheckChip {
    let plan = PoneglyphConfig::configure();
    RangeCheckChip::new(RangeCheckChip::configure(&plan))
}

fn recompose(limbs: &[u64; 8]) -> u64 {
    limbs
        .iter()
        .enumerate()
        .map(|(i, &l)| l << (8 * i))
        .sum()
}

#[test]
fn test_range_check_decomposition() {
    let chip = chip();
    let value = 0x1234567890ABCDEFu64;
    let threshold = 1000u64;
    let limbs = chip.decompose_64bit(value);
    assert!(check_decomposition_witness(&limbs, value));
    assert!(chip.check_less_than(value, threshold, threshold + 1000).is_ok());
}

#[test]
fn test_range_check_less_than_true() {
    let chip = chip();
    let value = 500u64;
    let threshold = 1000u64;
    let limbs = chip.decompose_64bit(value);
    assert!(check_decomposition_witness(&limbs, value));
    assert_eq!(
        chip.check_less_than(value, threshold, threshold + 1000).unwrap(),
        true
    );
}

#[test]
fn test_range_check_less_than_false() {
    let chip = chip();
    let value = 1500u64;
    let threshold = 1000u64;
    let limbs = chip.decompose_64bit(value);
    assert!(check_decomposition_witness(&limbs, value));
    assert_eq!(
        chip.check_less_than(value, threshold, threshold + 1000).unwrap(),
        false
    );
}

#[test]
fn test_range_check_small_value() {
    let chip = chip();
    let value = 42u64;
    let threshold = 100u64;
    let limbs = chip.decompose_64bit(value);
    assert!(check_decomposition_witness(&limbs, value));
    assert_eq!(
        chip.check_less_than(value, threshold, threshold + 1000).unwrap(),
        true
    );
}

#[test]
fn test_range_check_large_value() {
    let chip = chip();
    let value = u64::MAX;
    let threshold = u64::MAX / 2;
    let limbs = chip.decompose_64bit(value);
    assert!(check_decomposition_witness(&limbs, value));
    assert_eq!(
        chip.check_less_than(value, threshold, threshold + 1000).unwrap(),
        false
    );
}

#[test]
fn test_decomposition_round_trip() {
    let chip = chip();
    let limbs = chip.decompose_64bit(0x1234567890ABCDEF);
    assert_eq!(limbs, [0xEF, 0xCD, 0xAB, 0x90, 0x78, 0x56, 0x34, 0x12]);
    assert_eq!(recompose(&limbs), 0x1234567890ABCDEF);
    for l in limbs.iter() {
        assert!(*l <= 255);
    }
    for v in [0u64, 1, 255, 256, u64::MAX, 0x8000000000000000] {
        let limbs = chip.decompose_64bit(v);
        assert_eq!(recompose(&limbs), v);
    }
}

#[test]
fn test_threshold_correctness() {
    let chip = chip();
    assert_eq!(chip.check_less_than(500, 1000, 1000).unwrap(), true);
    assert_eq!(chip.check_less_than(1500, 1000, 1000).unwrap(), false);
    assert_eq!(chip.check_less_than(999, 1000, 1000).unwrap(), true);
    assert_eq!(chip.check_less_than(1000, 1000, 1000).unwrap(), false);
}

#[test]
fn test_threshold_window_too_small() {
    let chip = chip();
    // the gap t - x = 500 exceeds the window u = 100: no honest witness
    assert!(chip.check_less_than(500, 1000, 100).is_err());
    // a zero window leaves no room even for diff = 0
    assert!(chip.check_less_than(1500, 1000, 0).is_err());
}

#[test]
fn test_range_check_range_entry() {
    let chip = chip();
    assert!(chip.check_range(12345, 0, 100000).is_ok());
}

#[test]
fn test_decomposition_negative_control() {
    let chip = chip();
    let value = 0x1234567890ABCDEFu64;
    let mut limbs = chip.decompose_64bit(value);
    // perturb one limb: the sum identity breaks
    limbs[3] += 1;
    assert!(!check_decomposition_witness(&limbs, value));
    // an out-of-table limb breaks the lookup even if the sum holds
    let mut limbs2 = chip.decompose_64bit(0x100);
    limbs2[0] = 256;
    limbs2[1] = 0;
    assert!(!check_decomposition_witness(&limbs2, 0x100));
    // a perturbed value cell breaks the sum identity
    let limbs3 = chip.decompose_64bit(value);
    assert!(!check_decomposition_witness(&limbs3, value + 1));
}

#[test]
fn test_less_than_witness_honest_and_flipped() {
    // honest witness for 500 < 1000 with window 200 is infeasible
    // (gap 500 > 200); use values inside the window
    let x = 900u64;
    let t = 1000u64;
    let u = 200u64;
    // honest: check = 1, diff = u - (t - x) = 100
    assert!(check_less_than_witness(x, t, u, 1, 100));
    // flipped check bit fails the diff identity
    assert!(!check_less_than_witness(x, t, u, 0, 100));
    // perturbed diff fails the identity
    assert!(!check_less_than_witness(x, t, u, 1, 99));
    // non-boolean check fails the booleanity gate
    assert!(!check_less_than_witness(x, t, u, 2, 100));
    // honest non-match: x >= t, check = 0, diff = 0
    assert!(check_less_than_witness(1500, 1000, 200, 0, 0));
    // claiming 1500 < 1000 cannot satisfy the window
    assert!(!check_less_than_witness(1500, 1000, 200, 1, 0));
    assert!(!check_less_than_witness(1500, 1000, 200, 1, 199));
}
