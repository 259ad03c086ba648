//! Tests for constants, errors, operation builders and circuit scaffolding.
use poneglyphdb::aggregation::AggregationType;
use poneglyphdb::circuit::{AggregationOp, PoneglyphCircuit, RangeCheckOp};
use poneglyphdb::constants::{
    LOOKUP_TABLE_SIZE, MAX_CHUNKS, NUM_ADVICE_COLUMNS, NUM_FIXED_COLUMNS,
};
use poneglyphdb::error::PoneglyphError;

/// Generate a sorted array of values.
fn generate_sorted_values(n: usize, start: u64) -> Vec<u64> {
    (0..n).map(|i| start + i as u64).collect()
}

/// Create a simple circuit for testing.
fn create_test_circuit() -> PoneglyphCircuit {
    PoneglyphCircuit {
        db_commitment: 42,
        query_result: 100,
        range_checks: vec![RangeCheckOp {
            value: 10,
            threshold: 20,
            u: 256,
        }],
        sorts: vec![],
        group_bys: vec![],
        joins: vec![],
        aggregations: vec![],
    }
}

#[test]
fn test_constants() {
    assert!(MAX_CHUNKS > 0);
    assert!(LOOKUP_TABLE_SIZE > 0);
    assert!(NUM_ADVICE_COLUMNS > 0);
    assert!(NUM_FIXED_COLUMNS > 0);
}

#[test]
fn test_error_display() {
    let err = PoneglyphError::InvalidInput("test error".to_string());
    assert!(err.message().contains("Invalid input"));
    assert!(err.message().contains("test error"));
}

#[test]
fn test_error_types() {
    let errors = vec![
        PoneglyphError::Synthesis("circuit error".to_string()),
        PoneglyphError::InvalidInput("bad input".to_string()),
        PoneglyphError::Validation("validation failed".to_string()),
        PoneglyphError::Serialization("serde error".to_string()),
        PoneglyphError::Configuration("config error".to_string()),
    ];

    for err in errors {
        assert!(!err.message().is_empty());
    }
}

#[test]
fn test_range_check_op_macro() {
    let op = RangeCheckOp {
        value: 10u64,
        threshold: 20u64,
        u: 256u64,
    };
    assert_eq!(op.threshold, 20);
    assert_eq!(op.u, 256);
}

#[test]
fn test_aggregation_op_macro() {
    let op = AggregationOp {
        group_keys: vec![1, 2, 3],
        values: vec![10, 20, 30],
        agg_type: AggregationType::Sum,
    };
    assert_eq!(op.group_keys.len(), 3);
    assert_eq!(op.values.len(), 3);
}

#[test]
fn test_generate_sorted_values() {
    let values = generate_sorted_values(5, 0);
    assert_eq!(values, vec![0, 1, 2, 3, 4]);
}

#[test]
fn test_create_test_circuit() {
    let circuit = create_test_circuit();
    assert_eq!(circuit.range_checks.len(), 1);
}
