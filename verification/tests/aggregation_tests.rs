//! Tests for the aggregation gate: per-group SUM, COUNT, MAX and MIN.
use poneglyphdb::aggregation::{
    aggregate_values, check_aggregation_witness, AggregationChip, AggregationType,
};
use poneglyphdb::config::PoneglyphConfig;
use poneglyphdb::error::PoneglyphError;
use poneglyphdb::group_by::GroupByChip;
use poneglyphdb::range_check::RangeCheckChip;

fn chip() -> AggregationChip {
    let plan = PoneglyphConfig::configure();
    let rc = RangeCheckChip::configure(&plan);
    let gb = GroupByChip::configure(&plan, &rc);
    AggregationChip::new(AggregationChip::configure(&plan, &gb, &rc))
}

fn aggregate_ok(group_keys: Vec<u64>, values: Vec<u64>, agg_type: &str) -> bool {
    let mut sorted_keys = group_keys.clone();
    sorted_keys.sort();
    chip().aggregate_and_verify(&sorted_keys, &values, agg_type).is_ok()
}

#[test]
fn test_aggregation_sum_single_group() {
    assert!(aggregate_ok(vec![1, 1, 1, 1, 1], vec![10, 20, 30, 40, 50], "sum"));
}

#[test]
fn test_aggregation_sum_multiple_groups() {
    assert!(aggregate_ok(
        vec![1, 1, 2, 2, 2, 3, 3],
        vec![10, 20, 30, 40, 50, 60, 70],
        "sum"
    ));
}

#[test]
fn test_aggregation_count_single_group() {
    assert!(aggregate_ok(vec![1, 1, 1, 1, 1], vec![10, 20, 30, 40, 50], "count"));
}

#[test]
fn test_aggregation_count_multiple_groups() {
    assert!(aggregate_ok(
        vec![1, 1, 2, 2, 2, 3, 3],
        vec![10, 20, 30, 40, 50, 60, 70],
        "count"
    ));
}

#[test]
fn test_aggregation_max_single_group() {
    assert!(aggregate_ok(vec![1, 1, 1, 1, 1], vec![10, 20, 30, 40, 50], "max"));
}

#[test]
fn test_aggregation_max_multiple_groups() {
    assert!(aggregate_ok(
        vec![1, 1, 2, 2, 2, 3, 3],
        vec![10, 20, 30, 40, 50, 60, 70],
        "max"
    ));
}

#[test]
fn test_aggregation_min_single_group() {
    assert!(aggregate_ok(vec![1, 1, 1, 1, 1], vec![10, 20, 30, 40, 50], "min"));
}

#[test]
fn test_aggregation_min_multiple_groups() {
    assert!(aggregate_ok(
        vec![1, 1, 2, 2, 2, 3, 3],
        vec![10, 20, 30, 40, 50, 60, 70],
        "min"
    ));
}

#[test]
fn test_aggregation_empty() {
    assert!(aggregate_ok(vec![], vec![], "sum"));
    assert_eq!(
        chip().aggregate_and_verify(&[], &[], "sum").unwrap(),
        Vec::<u64>::new()
    );
}

#[test]
fn test_aggregation_single_element() {
    assert!(aggregate_ok(vec![1], vec![42], "sum"));
}

#[test]
fn test_aggregation_results_per_group() {
    let keys = [1u64, 1, 2, 2, 2, 3, 3];
    let values = [10u64, 20, 30, 40, 50, 60, 70];
    let c = chip();
    assert_eq!(
        c.aggregate_and_verify(&keys, &values, "sum").unwrap(),
        vec![30, 120, 130]
    );
    assert_eq!(
        c.aggregate_and_verify(&keys, &values, "count").unwrap(),
        vec![2, 3, 2]
    );
    assert_eq!(
        c.aggregate_and_verify(&keys, &values, "max").unwrap(),
        vec![20, 50, 70]
    );
    assert_eq!(
        c.aggregate_and_verify(&keys, &values, "min").unwrap(),
        vec![10, 30, 60]
    );
}

#[test]
fn test_aggregation_single_element_per_kind() {
    let c = chip();
    assert_eq!(c.aggregate_and_verify(&[1], &[42], "sum").unwrap(), vec![42]);
    assert_eq!(c.aggregate_and_verify(&[1], &[42], "count").unwrap(), vec![1]);
    assert_eq!(c.aggregate_and_verify(&[1], &[42], "max").unwrap(), vec![42]);
    assert_eq!(c.aggregate_and_verify(&[1], &[42], "min").unwrap(), vec![42]);
}

#[test]
fn test_aggregation_unknown_type() {
    let err = chip().aggregate_and_verify(&[1], &[42], "median").unwrap_err();
    assert!(matches!(err, PoneglyphError::InvalidInput(_)));
}

#[test]
fn test_aggregation_rejects_bad_input() {
    // length mismatch
    assert!(chip().aggregate_and_verify(&[1, 2], &[10], "sum").is_err());
    // unsorted keys
    assert!(chip().aggregate_and_verify(&[2, 1], &[10, 20], "sum").is_err());
}

#[test]
fn test_aggregation_sum_overflow() {
    let err = chip()
        .aggregate_and_verify(&[1, 1], &[u64::MAX, 1], "sum")
        .unwrap_err();
    assert!(matches!(err, PoneglyphError::InvalidInput(_)));
    // the same values are fine for max and min
    assert!(chip().aggregate_and_verify(&[1, 1], &[u64::MAX, 1], "max").is_ok());
}

#[test]
fn test_aggregation_negative_control() {
    let keys = [1u64, 1, 2, 2, 2, 3, 3];
    let values = [10u64, 20, 30, 40, 50, 60, 70];
    let honest = aggregate_values(&keys, &values, AggregationType::Sum).unwrap();
    assert!(check_aggregation_witness(&keys, &values, AggregationType::Sum, &honest));
    // one perturbed aggregate must fail verification
    for g in 0..honest.len() {
        let mut perturbed = honest.clone();
        perturbed[g] += 1;
        assert!(!check_aggregation_witness(
            &keys,
            &values,
            AggregationType::Sum,
            &perturbed
        ));
    }
    // a wrong group count must fail verification
    assert!(!check_aggregation_witness(&keys, &values, AggregationType::Sum, &honest[..2]));
}
