//! Tests for the sort gate: permutation and order.
use poneglyphdb::config::PoneglyphConfig;
use poneglyphdb::range_check::RangeCheckChip;
use poneglyphdb::sort::{check_sort_witness, sort_values, SortChip};

fn chip() -> SortChip {
    let plan = PoneglyphConfig::configure();
    let rc = RangeCheckChip::configure(&plan);
    SortChip::new(SortChip::configure(&plan, &rc))
}

fn sort_ok(input: Vec<u64>) -> bool {
    let mut sorted_values = input.clone();
    sorted_values.sort();
    chip().sort_and_verify(&input, &sorted_values).is_ok()
}

#[test]
fn test_sort_simple() {
    assert!(sort_ok(vec![3, 1, 4, 1, 5]));
}

#[test]
fn test_sort_already_sorted() {
    assert!(sort_ok(vec![1, 2, 3, 4, 5]));
}

#[test]
fn test_sort_reverse() {
    assert!(sort_ok(vec![5, 4, 3, 2, 1]));
}

#[test]
fn test_sort_single() {
    assert!(sort_ok(vec![42]));
}

#[test]
fn test_sort_duplicates() {
    assert!(sort_ok(vec![3, 1, 3, 1, 2]));
}

#[test]
fn test_sort_large() {
    assert!(sort_ok((0..50).rev().collect()));
}

#[test]
fn test_sort_empty() {
    assert!(sort_ok(vec![]));
}

#[test]
fn test_sort_permutation_and_order() {
    let input = vec![3u64, 1, 4, 1, 5];
    let output = chip().sort_and_verify(&input, &[1, 1, 3, 4, 5]).unwrap();
    assert_eq!(output, vec![1, 1, 3, 4, 5]);
    assert_eq!(sort_values(&input), vec![1, 1, 3, 4, 5]);
}

#[test]
fn test_sort_negative_control_order() {
    // output out of order must fail the adjacent-pair check
    assert!(!check_sort_witness(&[3, 1, 2], &[1, 3, 2]));
    assert!(chip().sort_and_verify(&[3, 1, 2], &[1, 3, 2]).is_err());
}

#[test]
fn test_sort_negative_control_permutation() {
    // output that is not a permutation must fail the grand-product check
    assert!(!check_sort_witness(&[3, 1, 2], &[1, 1, 2]));
    assert!(chip().sort_and_verify(&[3, 1, 2], &[1, 1, 2]).is_err());
}

#[test]
fn test_sort_negative_control_length() {
    assert!(chip().sort_and_verify(&[3, 1, 2], &[1, 2]).is_err());
}
