use commitlabs::validation::{Validation, ValidationError};

#[test]
fn test_require_positive() {
    assert!(Validation::require_positive(1).is_ok());
    assert!(Validation::require_positive(100).is_ok());
}

#[test]
fn test_require_positive_fails_zero() {
    let err = Validation::require_positive(0).unwrap_err();
    assert!(err.message().starts_with("Invalid amount"));
}

#[test]
fn test_require_positive_fails_negative() {
    assert_eq!(Validation::require_positive(-1), Err(ValidationError::NonPositiveAmount));
}

#[test]
fn test_require_non_negative() {
    assert!(Validation::require_non_negative(0).is_ok());
    assert!(Validation::require_non_negative(1).is_ok());
    assert!(Validation::require_non_negative(100).is_ok());
}

#[test]
fn test_require_non_negative_fails() {
    let err = Validation::require_non_negative(-1).unwrap_err();
    assert_eq!(err.message(), "Invalid amount: must be non-negative");
}

#[test]
fn test_require_valid_duration() {
    assert!(Validation::require_valid_duration(1).is_ok());
    assert!(Validation::require_valid_duration(365).is_ok());
}

#[test]
fn test_require_valid_duration_fails() {
    let err = Validation::require_valid_duration(0).unwrap_err();
    assert!(err.message().starts_with("Invalid duration"));
}

#[test]
fn test_require_valid_percent() {
    assert!(Validation::require_valid_percent(0).is_ok());
    assert!(Validation::require_valid_percent(50).is_ok());
    assert!(Validation::require_valid_percent(100).is_ok());
}

#[test]
fn test_require_valid_percent_fails() {
    let err = Validation::require_valid_percent(101).unwrap_err();
    assert!(err.message().starts_with("Invalid percent"));
}

#[test]
fn test_require_in_range() {
    assert!(Validation::require_in_range(50, 0, 100, "value").is_ok());
    assert!(Validation::require_in_range(0, 0, 100, "value").is_ok());
    assert!(Validation::require_in_range(100, 0, 100, "value").is_ok());
}

#[test]
fn test_require_in_range_fails_below() {
    let err = Validation::require_in_range(-1, 0, 100, "value").unwrap_err();
    assert_eq!(err.message(), "Invalid value: must be between 0 and 100");
}

#[test]
fn test_require_in_range_fails_above() {
    let err = Validation::require_in_range(101, 0, 100, "value").unwrap_err();
    assert_eq!(err.message(), "Invalid value: must be between 0 and 100");
}

#[test]
fn require_min_and_max_bounds() {
    assert!(Validation::require_min(5, 5, "v").is_ok());
    assert_eq!(Validation::require_min(4, 5, "v").unwrap_err().message(), "Invalid v: must be at least 5");
    assert!(Validation::require_max(5, 5, "v").is_ok());
    assert_eq!(Validation::require_max(6, 5, "v").unwrap_err().message(), "Invalid v: must be at most 5");
    assert_eq!(
        Validation::require_min(-10, -3, "delta").unwrap_err().message(),
        "Invalid delta: must be at least -3"
    );
    assert_eq!(
        Validation::require_in_range(0, i128::MIN, -1, "x").unwrap_err().message(),
        format!("Invalid x: must be between {} and -1", i128::MIN)
    );
}

#[test]
fn test_require_valid_commitment_type_ok() {
    let ct = String::from("TYPE_A");
    assert!(Validation::require_valid_commitment_type(&ct, &["TYPE_A", "TYPE_B"]).is_ok());
}

#[test]
fn test_require_valid_commitment_type_fails() {
    let ct = String::from("TYPE_C");
    let err = Validation::require_valid_commitment_type(&ct, &["TYPE_A", "TYPE_B"]).unwrap_err();
    assert!(err.message().starts_with("Invalid commitment type"));
}

#[test]
fn commitment_type_match_is_case_sensitive() {
    let ct = String::from("type_a");
    assert!(Validation::require_valid_commitment_type(&ct, &["TYPE_A"]).is_err());
}

#[test]
fn test_require_percent_sum_ok() {
    assert!(Validation::require_percent_sum(&[100]).is_ok());
    assert!(Validation::require_percent_sum(&[50, 50]).is_ok());
    assert!(Validation::require_percent_sum(&[25, 25, 25, 25]).is_ok());
}

#[test]
fn test_require_percent_sum_fails_sum_mismatch() {
    let err = Validation::require_percent_sum(&[30, 30]).unwrap_err();
    assert!(err.message().starts_with("Invalid percent sum"));
}

#[test]
fn test_require_percent_sum_fails_individual_invalid() {
    assert_eq!(Validation::require_percent_sum(&[50, 200]), Err(ValidationError::PercentOutOfRange));
}

#[test]
fn non_empty_string_guard() {
    assert!(Validation::require_non_empty_string(&String::from("x"), "name").is_ok());
    assert_eq!(
        Validation::require_non_empty_string(&String::new(), "name").unwrap_err().message(),
        "Invalid name: must not be empty"
    );
}
