//! Tests for the top-level circuit: composition, determinism and rejection.
use poneglyphdb::aggregation::AggregationType;
use poneglyphdb::circuit::{
    AggregationOp, GroupByOp, JoinOp, PoneglyphCircuit, RangeCheckOp, SQLGate, SortOp,
};
use poneglyphdb::error::PoneglyphError;

fn sample_circuit() -> PoneglyphCircuit {
    PoneglyphCircuit {
        db_commitment: 42,
        query_result: 100,
        range_checks: vec![RangeCheckOp { value: 10, threshold: 20, u: 255 }],
        sorts: vec![SortOp { input: vec![3, 1, 4, 1, 5] }],
        group_bys: vec![GroupByOp { group_keys: vec![1, 1, 2, 2, 2, 3, 3] }],
        joins: vec![JoinOp {
            table1_keys: vec![1, 2, 3],
            table1_values: vec![10, 20, 30],
            table2_keys: vec![2, 3, 4],
            table2_values: vec![200, 300, 400],
        }],
        aggregations: vec![AggregationOp {
            group_keys: vec![1, 1, 2, 2, 2, 3, 3],
            values: vec![10, 20, 30, 40, 50, 60, 70],
            agg_type: AggregationType::Sum,
        }],
    }
}

#[test]
fn test_circuit_synthesize_accepts() {
    let circuit = sample_circuit();
    let config = PoneglyphCircuit::configure();
    assert!(circuit.synthesize(&config).is_ok());
}

#[test]
fn test_circuit_empty_accepts() {
    let circuit = sample_circuit().without_witnesses();
    assert_eq!(circuit.range_checks.len(), 0);
    let config = PoneglyphCircuit::configure();
    assert!(circuit.synthesize(&config).is_ok());
}

#[test]
fn test_circuit_verification_idempotent() {
    // re-running verification on the same witness/config pair yields the
    // same accept/reject result
    let config = PoneglyphCircuit::configure();
    let good = sample_circuit();
    assert_eq!(
        good.synthesize(&config).is_ok(),
        good.synthesize(&config).is_ok()
    );
    let mut bad = sample_circuit();
    bad.group_bys[0].group_keys = vec![2, 1];
    assert_eq!(
        bad.synthesize(&config).is_ok(),
        bad.synthesize(&config).is_ok()
    );
    assert!(bad.synthesize(&config).is_err());
}

#[test]
fn test_circuit_rejects_wide_window() {
    // a window bound at or above the lookup table size is an unsupported
    // configuration
    let mut circuit = sample_circuit();
    circuit.range_checks[0].u = 256;
    let config = PoneglyphCircuit::configure();
    let err = circuit.synthesize(&config).unwrap_err();
    assert!(matches!(err, PoneglyphError::Configuration(_)));
}

#[test]
fn test_circuit_rejects_infeasible_window() {
    let mut circuit = sample_circuit();
    // the gap threshold - value = 200 exceeds the window u = 100
    circuit.range_checks[0] = RangeCheckOp { value: 10, threshold: 210, u: 100 };
    let config = PoneglyphCircuit::configure();
    let err = circuit.synthesize(&config).unwrap_err();
    assert!(matches!(err, PoneglyphError::Validation(_)));
}

#[test]
fn test_circuit_rejects_unsorted_group_keys() {
    let mut circuit = sample_circuit();
    circuit.group_bys[0].group_keys = vec![2, 1, 3];
    let config = PoneglyphCircuit::configure();
    assert!(circuit.synthesize(&config).is_err());
}

#[test]
fn test_circuit_rejects_bad_join() {
    let mut circuit = sample_circuit();
    circuit.joins[0].table1_values = vec![10, 20];
    let config = PoneglyphCircuit::configure();
    assert!(circuit.synthesize(&config).is_err());
}

#[test]
fn test_circuit_rejects_bad_aggregation() {
    let mut circuit = sample_circuit();
    circuit.aggregations[0].values = vec![u64::MAX, u64::MAX, 1, 1, 1, 1, 1];
    let config = PoneglyphCircuit::configure();
    assert!(circuit.synthesize(&config).is_err());
}

#[test]
fn test_circuit_through_gate_trait() {
    let circuit = sample_circuit();
    let plan = PoneglyphCircuit::configure();
    let config = <PoneglyphCircuit as SQLGate>::configure(&plan);
    assert!(SQLGate::synthesize(&circuit, &config).is_ok());
}

#[test]
fn test_lookup_table_contents() {
    let config = PoneglyphCircuit::configure();
    let table = config.load_lookup_table();
    assert_eq!(table.len(), 256);
    for (i, v) in table.iter().enumerate() {
        assert_eq!(*v, i as u64);
    }
    // loading is idempotent: the contents are fully determined
    assert_eq!(config.load_lookup_table(), table);
}
