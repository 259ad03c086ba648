//! Tests for the pre-synthesis input validators.
use poneglyphdb::error::PoneglyphError;
use poneglyphdb::validation::{
    validate_equal_length, validate_not_empty, validate_range, validate_sorted,
};

#[test]
fn test_validate_equal_length() {
    assert!(validate_equal_length(&[1, 2], &[3, 4], "test").is_ok());
    assert!(validate_equal_length(&[1], &[3, 4], "test").is_err());
}

#[test]
fn test_validate_not_empty() {
    assert!(validate_not_empty(&[1, 2], "test").is_ok());
    assert!(validate_not_empty(&[] as &[i32], "test").is_err());
}

#[test]
fn test_validate_range() {
    assert!(validate_range(5, 0, 10, "test").is_ok());
    assert!(validate_range(10, 0, 10, "test").is_err());
    assert!(validate_range(15, 0, 10, "test").is_err());
}

#[test]
fn test_validate_sorted() {
    assert!(validate_sorted(&[1u64, 2, 3], "test").is_ok());
    assert!(validate_sorted(&[3u64, 2, 1], "test").is_err());
}

#[test]
fn test_validate_range_message() {
    let err = validate_range(15, 0, 10, "test").unwrap_err();
    assert_eq!(
        err.message(),
        "Validation error: test: value 15 is not in range [0, 10)".to_string()
    );
}

#[test]
fn test_validate_equal_length_message() {
    let err = validate_equal_length(&[1], &[3, 4], "test").unwrap_err();
    assert_eq!(
        err.message(),
        "Validation error: test: lengths do not match (1 vs 2)".to_string()
    );
}

#[test]
fn test_validate_sorted_first_break() {
    let err = validate_sorted(&[1u64, 5, 4, 3], "keys").unwrap_err();
    assert!(matches!(&err, PoneglyphError::Validation(_)));
    assert_eq!(
        err.message(),
        "Validation error: keys: keys are not sorted at index 2".to_string()
    );
}

#[test]
fn test_validate_sorted_empty_and_single() {
    assert!(validate_sorted(&[], "test").is_ok());
    assert!(validate_sorted(&[42u64], "test").is_ok());
}

#[test]
fn test_validate_sorted_duplicates() {
    assert!(validate_sorted(&[1u64, 1, 2, 2], "test").is_ok());
}
