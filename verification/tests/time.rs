use commitlabs::time::{TimeUtils, MAX_DURATION_DAYS};
use commitlabs::validation::ValidationError;

#[test]
fn test_days_to_seconds_typical() {
    assert_eq!(TimeUtils::days_to_seconds(0), 0);
    assert_eq!(TimeUtils::days_to_seconds(1), 86_400);
    assert_eq!(TimeUtils::days_to_seconds(7), 604_800);
    assert_eq!(TimeUtils::days_to_seconds(30), 2_592_000);
    assert_eq!(TimeUtils::days_to_seconds(365), 31_536_000);
}

#[test]
fn test_days_to_seconds_max_u32_no_overflow() {
    let result = TimeUtils::days_to_seconds(u32::MAX);
    assert_eq!(result, u32::MAX as u64 * 86_400);
    assert!(result < u64::MAX);
}

#[test]
fn test_hours_to_seconds() {
    assert_eq!(TimeUtils::hours_to_seconds(0), 0);
    assert_eq!(TimeUtils::hours_to_seconds(1), 3_600);
    assert_eq!(TimeUtils::hours_to_seconds(24), 86_400);
    assert_eq!(TimeUtils::hours_to_seconds(u32::MAX), u32::MAX as u64 * 3_600);
}

#[test]
fn test_minutes_to_seconds() {
    assert_eq!(TimeUtils::minutes_to_seconds(0), 0);
    assert_eq!(TimeUtils::minutes_to_seconds(1), 60);
    assert_eq!(TimeUtils::minutes_to_seconds(60), 3_600);
}

#[test]
fn test_seconds_to_days_floored() {
    assert_eq!(TimeUtils::seconds_to_days(0), 0);
    assert_eq!(TimeUtils::seconds_to_days(86_399), 0);
    assert_eq!(TimeUtils::seconds_to_days(86_400), 1);
    assert_eq!(TimeUtils::seconds_to_days(172_800), 2);
    assert_eq!(TimeUtils::seconds_to_days(3_600), 0);
}

#[test]
fn test_seconds_to_days_round_trip() {
    for days in [0u32, 1, 7, 30, 365, 1000] {
        let seconds = TimeUtils::days_to_seconds(days);
        assert_eq!(TimeUtils::seconds_to_days(seconds), days, "round-trip failed for {} days", days);
    }
}

#[test]
fn seconds_to_days_caps_at_u32_max() {
    assert_eq!(TimeUtils::seconds_to_days(u64::MAX), u32::MAX);
}

#[test]
fn test_checked_days_to_seconds_some_for_all_u32() {
    assert_eq!(TimeUtils::checked_days_to_seconds(0), Some(0));
    assert_eq!(TimeUtils::checked_days_to_seconds(1), Some(86_400));
    assert_eq!(TimeUtils::checked_days_to_seconds(30), Some(2_592_000));
    assert!(TimeUtils::checked_days_to_seconds(u32::MAX).is_some());
}

#[test]
fn test_calculate_expiration_zero_timestamp() {
    let exp = TimeUtils::expiration_at(0, 1);
    assert_eq!(exp, 86_400);
}

#[test]
fn test_calculate_expiration_typical() {
    assert_eq!(TimeUtils::expiration_at(1_000_000, 1), 1_000_000 + 86_400);
    assert_eq!(TimeUtils::expiration_at(1_000_000, 30), 1_000_000 + 2_592_000);
}

#[test]
fn test_calculate_expiration_zero_duration() {
    let exp = TimeUtils::expiration_at(50_000, 0);
    assert_eq!(exp, 50_000);
    assert!(TimeUtils::is_expired_at(50_000, exp));
}

#[test]
fn calculate_expiration_wraps_past_u64_max() {
    assert_eq!(TimeUtils::expiration_at(u64::MAX, 1), 86_399);
}

#[test]
fn test_checked_calculate_expiration_typical() {
    assert_eq!(TimeUtils::checked_expiration_at(1_000, 7), Some(1_000 + 7 * 86_400));
}

#[test]
fn test_checked_calculate_expiration_zero_timestamp() {
    assert_eq!(TimeUtils::checked_expiration_at(0, 1), Some(86_400));
}

#[test]
fn test_checked_calculate_expiration_overflow_returns_none() {
    let result = TimeUtils::checked_expiration_at(u64::MAX - 1_000, 1);
    assert_eq!(result, None, "expected None on overflow");
}

#[test]
fn test_checked_calculate_expiration_exact_max_allowed() {
    let max_days_u64 = (u64::MAX - 1_000) / 86_400;
    let duration_days = max_days_u64.min(u32::MAX as u64) as u32;
    let result = TimeUtils::checked_expiration_at(1_000, duration_days);
    assert!(result.is_some(), "expected Some for max-allowed duration");
    let exp = result.unwrap();
    assert_eq!(exp, 1_000 + duration_days as u64 * 86_400);
}

#[test]
fn test_checked_calculate_expiration_zero_duration() {
    assert_eq!(TimeUtils::checked_expiration_at(999, 0), Some(999));
}

#[test]
fn test_is_expired_past() {
    assert!(TimeUtils::is_expired_at(1_000, 0));
    assert!(TimeUtils::is_expired_at(1_000, 500));
    assert!(TimeUtils::is_expired_at(1_000, 999));
}

#[test]
fn test_is_expired_exactly_at_now() {
    assert!(TimeUtils::is_expired_at(1_000, 1_000));
    assert!(!TimeUtils::is_valid_at(1_000, 1_000));
}

#[test]
fn test_is_expired_one_second_ahead() {
    assert!(!TimeUtils::is_expired_at(1_000, 1_001));
    assert!(TimeUtils::is_valid_at(1_000, 1_001));
}

#[test]
fn test_is_expired_future() {
    assert!(!TimeUtils::is_expired_at(1_000, 2_000));
    assert!(TimeUtils::is_valid_at(1_000, 2_000));
}

#[test]
fn test_is_expired_ledger_at_zero() {
    assert!(TimeUtils::is_expired_at(0, 0));
    assert!(!TimeUtils::is_expired_at(0, 1));
}

#[test]
fn test_is_expired_max_expiration() {
    assert!(!TimeUtils::is_expired_at(1_000, u64::MAX));
}

#[test]
fn test_time_remaining_not_expired() {
    assert_eq!(TimeUtils::time_remaining_at(1_000, 2_000), 1_000);
}

#[test]
fn test_time_remaining_exactly_at_expiration() {
    assert_eq!(TimeUtils::time_remaining_at(1_000, 1_000), 0);
}

#[test]
fn test_time_remaining_past_expiration_saturates_to_zero() {
    assert_eq!(TimeUtils::time_remaining_at(2_000, 500), 0);
    assert_eq!(TimeUtils::time_remaining_at(2_000, 0), 0);
}

#[test]
fn test_time_remaining_ledger_at_zero() {
    assert_eq!(TimeUtils::time_remaining_at(0, 86_400), 86_400);
    assert_eq!(TimeUtils::time_remaining_at(0, 0), 0);
}

#[test]
fn test_time_remaining_max_expiration() {
    assert_eq!(TimeUtils::time_remaining_at(0, u64::MAX), u64::MAX);
}

#[test]
fn test_elapsed_normal() {
    assert_eq!(TimeUtils::elapsed_at(2_000, 1_000), 1_000);
}

#[test]
fn test_elapsed_same_time() {
    assert_eq!(TimeUtils::elapsed_at(1_000, 1_000), 0);
}

#[test]
fn test_elapsed_future_start_saturates_to_zero() {
    assert_eq!(TimeUtils::elapsed_at(1_000, 3_000), 0);
}

#[test]
fn test_elapsed_ledger_at_zero() {
    assert_eq!(TimeUtils::elapsed_at(0, 0), 0);
    assert_eq!(TimeUtils::elapsed_at(0, 86_400), 0);
}

#[test]
fn test_is_same_day_same_second() {
    assert!(TimeUtils::is_same_day(86_400, 86_400));
}

#[test]
fn test_is_same_day_same_day_different_seconds() {
    assert!(TimeUtils::is_same_day(86_400, 172_799));
}

#[test]
fn test_is_same_day_across_day_boundary() {
    assert!(!TimeUtils::is_same_day(86_399, 86_400));
}

#[test]
fn test_is_same_day_zero_timestamps() {
    assert!(TimeUtils::is_same_day(0, 0));
    assert!(TimeUtils::is_same_day(0, 86_399));
    assert!(!TimeUtils::is_same_day(0, 86_400));
}

#[test]
fn test_is_in_window_typical() {
    assert!(TimeUtils::is_in_window(150, 100, 200));
}

#[test]
fn test_is_in_window_at_start_inclusive() {
    assert!(TimeUtils::is_in_window(100, 100, 200));
}

#[test]
fn test_is_in_window_at_end_exclusive() {
    assert!(!TimeUtils::is_in_window(200, 100, 200));
}

#[test]
fn test_is_in_window_below_start() {
    assert!(!TimeUtils::is_in_window(99, 100, 200));
}

#[test]
fn test_is_in_window_above_end() {
    assert!(!TimeUtils::is_in_window(201, 100, 200));
}

#[test]
fn test_is_in_window_invalid_range_returns_false() {
    assert!(!TimeUtils::is_in_window(150, 200, 100));
    assert!(!TimeUtils::is_in_window(150, 150, 150));
}

#[test]
fn test_is_in_window_zero_bounds() {
    assert!(!TimeUtils::is_in_window(0, 0, 0));
    assert!(TimeUtils::is_in_window(0, 0, 1));
}

#[test]
fn test_require_not_expired_succeeds_when_valid() {
    assert!(TimeUtils::require_not_expired_at(1_000, 1_001).is_ok());
    assert!(TimeUtils::require_not_expired_at(1_000, u64::MAX).is_ok());
}

#[test]
fn test_require_not_expired_panics_at_exact_expiration() {
    let err = TimeUtils::require_not_expired_at(1_000, 1_000).unwrap_err();
    assert_eq!(err, ValidationError::Expired);
    assert_eq!(err.message(), "expired");
}

#[test]
fn test_require_not_expired_panics_past_expiration() {
    assert_eq!(TimeUtils::require_not_expired_at(2_000, 1_000), Err(ValidationError::Expired));
}

#[test]
fn test_require_not_expired_panics_at_zero_expiration_nonzero_now() {
    assert_eq!(TimeUtils::require_not_expired_at(1, 0), Err(ValidationError::Expired));
}

#[test]
fn test_require_not_expired_panics_at_zero_zero() {
    assert_eq!(TimeUtils::require_not_expired_at(0, 0), Err(ValidationError::Expired));
}

#[test]
fn test_require_valid_duration_accepts_zero() {
    assert!(TimeUtils::require_valid_duration(0).is_ok());
}

#[test]
fn test_require_valid_duration_accepts_max_allowed() {
    assert!(TimeUtils::require_valid_duration(MAX_DURATION_DAYS).is_ok());
}

#[test]
fn test_require_valid_duration_panics_above_max() {
    let err = TimeUtils::require_valid_duration(MAX_DURATION_DAYS + 1).unwrap_err();
    assert_eq!(err.message(), "duration_exceeds_max");
}

#[test]
fn test_require_valid_duration_panics_at_u32_max() {
    assert_eq!(TimeUtils::require_valid_duration(u32::MAX), Err(ValidationError::DurationExceedsMax));
}

#[test]
fn test_expiration_transitions_with_ledger_advance() {
    let start = 10_000u64;
    let expiration = TimeUtils::expiration_at(start, 2);

    assert!(TimeUtils::is_valid_at(start, expiration));
    assert_eq!(TimeUtils::time_remaining_at(start, expiration), TimeUtils::days_to_seconds(2));

    let now = expiration - 1;
    assert!(TimeUtils::is_valid_at(now, expiration));
    assert_eq!(TimeUtils::time_remaining_at(now, expiration), 1);

    let now = expiration;
    assert!(TimeUtils::is_expired_at(now, expiration));
    assert_eq!(TimeUtils::time_remaining_at(now, expiration), 0);

    let now = expiration + 1_000;
    assert!(TimeUtils::is_expired_at(now, expiration));
    assert_eq!(TimeUtils::elapsed_at(now, expiration), 1_000);
}

#[test]
fn test_zero_ledger_timestamp_all_helpers_coherent() {
    let now = 0u64;
    let exp = TimeUtils::expiration_at(now, 1);
    assert_eq!(exp, 86_400);
    assert!(!TimeUtils::is_expired_at(now, exp));
    assert!(TimeUtils::is_valid_at(now, exp));
    assert_eq!(TimeUtils::time_remaining_at(now, exp), 86_400);
    assert_eq!(TimeUtils::elapsed_at(now, 0), 0);

    let exp0 = TimeUtils::expiration_at(now, 0);
    assert_eq!(exp0, 0);
    assert!(TimeUtils::is_expired_at(now, exp0));
}

#[test]
fn remaining_is_zero_exactly_when_expired() {
    for (now, exp) in [(0u64, 0u64), (5, 4), (5, 5), (5, 6), (0, u64::MAX)] {
        assert_eq!(TimeUtils::time_remaining_at(now, exp) == 0, TimeUtils::is_expired_at(now, exp));
    }
}
