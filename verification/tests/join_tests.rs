//! Tests for the join gate: exact matches, misses and fan-out.
use poneglyphdb::config::PoneglyphConfig;
use poneglyphdb::join::{check_join_witness, JoinChip, JoinRow};
use poneglyphdb::range_check::RangeCheckChip;
use poneglyphdb::sort::SortChip;

fn chip() -> JoinChip {
    let plan = PoneglyphConfig::configure();
    let rc = RangeCheckChip::configure(&plan);
    let sort = SortChip::configure(&plan, &rc);
    JoinChip::new(JoinChip::configure(&plan, &rc, &sort))
}

#[test]
fn test_join_simple_inner() {
    let matches = chip()
        .join_and_verify(&[1, 2, 3], &[10, 20, 30], &[2, 3, 4], &[200, 300, 400])
        .unwrap();
    assert_eq!(
        matches,
        vec![
            JoinRow { key: 2, left_value: 20, right_value: 200 },
            JoinRow { key: 3, left_value: 30, right_value: 300 },
        ]
    );
}

#[test]
fn test_join_pk_fk() {
    let matches = chip()
        .join_and_verify(&[1, 2, 3], &[100, 200, 300], &[1, 1, 2], &[11, 12, 21])
        .unwrap();
    assert_eq!(
        matches,
        vec![
            JoinRow { key: 1, left_value: 100, right_value: 11 },
            JoinRow { key: 1, left_value: 100, right_value: 12 },
            JoinRow { key: 2, left_value: 200, right_value: 21 },
        ]
    );
}

#[test]
fn test_join_empty_table() {
    let matches = chip()
        .join_and_verify(&[], &[], &[1, 2, 3], &[10, 20, 30])
        .unwrap();
    assert!(matches.is_empty());
}

#[test]
fn test_join_single_record() {
    let matches = chip()
        .join_and_verify(&[42], &[100], &[42], &[200])
        .unwrap();
    assert_eq!(
        matches,
        vec![JoinRow { key: 42, left_value: 100, right_value: 200 }]
    );
}

#[test]
fn test_join_no_matches() {
    let matches = chip()
        .join_and_verify(&[1, 2, 3], &[10, 20, 30], &[4, 5, 6], &[40, 50, 60])
        .unwrap();
    assert!(matches.is_empty());
}

#[test]
fn test_join_large_dataset() {
    let mut table1_keys = Vec::new();
    let mut table1_values = Vec::new();
    let mut table2_keys = Vec::new();
    let mut table2_values = Vec::new();

    // Create 10 records
    for i in 0..10 {
        table1_keys.push(i);
        table1_values.push(i * 10);
        table2_keys.push(i);
        table2_values.push(i * 100);
    }

    let matches = chip()
        .join_and_verify(&table1_keys, &table1_values, &table2_keys, &table2_values)
        .unwrap();
    assert_eq!(matches.len(), 10);
    for (i, row) in matches.iter().enumerate() {
        let k = i as u64;
        assert_eq!(*row, JoinRow { key: k, left_value: k * 10, right_value: k * 100 });
    }
}

#[test]
fn test_join_rejects_bad_input() {
    // mismatched key/value lengths
    assert!(chip().join_and_verify(&[1, 2], &[10], &[1], &[10]).is_err());
    assert!(chip().join_and_verify(&[1], &[10], &[1, 2], &[10]).is_err());
    // unsorted keys
    assert!(chip()
        .join_and_verify(&[2, 1], &[10, 20], &[1, 2], &[10, 20])
        .is_err());
    assert!(chip()
        .join_and_verify(&[1, 2], &[10, 20], &[2, 1], &[10, 20])
        .is_err());
}

#[test]
fn test_join_match_flags() {
    let flags = poneglyphdb::join::compute_match_flags(&[1, 2, 3], &[2, 3, 4]);
    assert_eq!(
        flags,
        vec![
            vec![false, false, false],
            vec![true, false, false],
            vec![false, true, false],
        ]
    );
    // the number of true flags equals the number of emitted rows
    let true_count: usize = flags.iter().flatten().filter(|b| **b).count();
    let rows = chip()
        .join_and_verify(&[1, 2, 3], &[10, 20, 30], &[2, 3, 4], &[200, 300, 400])
        .unwrap();
    assert_eq!(true_count, rows.len());
}

#[test]
fn test_join_negative_control() {
    let t1k = [1u64, 2, 3];
    let t1v = [10u64, 20, 30];
    let t2k = [2u64, 3, 4];
    let t2v = [200u64, 300, 400];
    let honest = vec![
        JoinRow { key: 2, left_value: 20, right_value: 200 },
        JoinRow { key: 3, left_value: 30, right_value: 300 },
    ];
    assert!(check_join_witness(&t1k, &t1v, &t2k, &t2v, &honest));
    // a mispaired value must fail verification
    let mut perturbed = honest.clone();
    perturbed[0].right_value = 300;
    assert!(!check_join_witness(&t1k, &t1v, &t2k, &t2v, &perturbed));
    // a dropped row must fail verification
    assert!(!check_join_witness(&t1k, &t1v, &t2k, &t2v, &honest[..1]));
    // an invented row must fail verification
    let mut extra = honest.clone();
    extra.push(JoinRow { key: 4, left_value: 40, right_value: 400 });
    assert!(!check_join_witness(&t1k, &t1v, &t2k, &t2v, &extra));
}
