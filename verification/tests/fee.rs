use commitlabs::fee::FeeManager;
use commitlabs::validation::ValidationError;

#[test]
fn test_valid_fee_bps_zero() {
    assert!(FeeManager::require_valid_fee_bps(0).is_ok());
}

#[test]
fn test_valid_fee_bps_max() {
    assert!(FeeManager::require_valid_fee_bps(10_000).is_ok());
}

#[test]
fn test_valid_fee_bps_mid() {
    assert!(FeeManager::require_valid_fee_bps(500).is_ok());
}

#[test]
fn test_invalid_fee_bps_over_max() {
    let err = FeeManager::require_valid_fee_bps(10_001).unwrap_err();
    assert_eq!(err, ValidationError::FeeBpsOutOfRange);
    assert_eq!(err.message(), "Invalid fee: basis points must be between 0 and 10000");
}

#[test]
fn test_is_valid_fee_bps_true() {
    assert!(FeeManager::is_valid_fee_bps(0));
    assert!(FeeManager::is_valid_fee_bps(500));
    assert!(FeeManager::is_valid_fee_bps(10_000));
}

#[test]
fn test_is_valid_fee_bps_false() {
    assert!(!FeeManager::is_valid_fee_bps(10_001));
    assert!(!FeeManager::is_valid_fee_bps(u32::MAX));
}

#[test]
fn test_require_non_zero_fee_passes() {
    assert!(FeeManager::require_non_zero_fee(1).is_ok());
    assert!(FeeManager::require_non_zero_fee(500).is_ok());
    assert!(FeeManager::require_non_zero_fee(10_000).is_ok());
}

#[test]
fn test_require_non_zero_fee_fails() {
    let err = FeeManager::require_non_zero_fee(0).unwrap_err();
    assert_eq!(err, ValidationError::ZeroFee);
    assert_eq!(err.message(), "Invalid fee: must be greater than zero");
}

#[test]
fn test_calculate_fee_bps_100_at_10_percent() {
    assert_eq!(FeeManager::calculate_fee_bps(100, 1_000), 10);
}

#[test]
fn test_calculate_fee_bps_1000_at_5_percent() {
    assert_eq!(FeeManager::calculate_fee_bps(1_000, 500), 50);
}

#[test]
fn test_calculate_fee_bps_zero_rate() {
    assert_eq!(FeeManager::calculate_fee_bps(1_000, 0), 0);
}

#[test]
fn test_calculate_fee_bps_full_rate() {
    assert_eq!(FeeManager::calculate_fee_bps(1_000, 10_000), 1_000);
}

#[test]
fn test_calculate_fee_bps_truncates() {
    assert_eq!(FeeManager::calculate_fee_bps(1, 1), 0);
}

#[test]
fn test_calculate_fee_bps_large_amount() {
    assert_eq!(FeeManager::calculate_fee_bps(1_000_000, 250), 25_000);
}

#[test]
fn test_calculate_fee_percent_10() {
    assert_eq!(FeeManager::calculate_fee_percent(1_000, 10), 100);
}

#[test]
fn test_calculate_fee_percent_50() {
    assert_eq!(FeeManager::calculate_fee_percent(200, 50), 100);
}

#[test]
fn test_calculate_fee_percent_zero() {
    assert_eq!(FeeManager::calculate_fee_percent(1_000, 0), 0);
}

#[test]
fn test_calculate_fee_percent_100() {
    assert_eq!(FeeManager::calculate_fee_percent(1_000, 100), 1_000);
}

#[test]
fn test_net_amount_bps_10_percent() {
    assert_eq!(FeeManager::net_amount_bps(1_000, 1_000), 900);
}

#[test]
fn test_net_amount_bps_zero_fee() {
    assert_eq!(FeeManager::net_amount_bps(1_000, 0), 1_000);
}

#[test]
fn test_net_amount_bps_full_fee() {
    assert_eq!(FeeManager::net_amount_bps(1_000, 10_000), 0);
}

#[test]
fn test_net_amount_percent_25() {
    assert_eq!(FeeManager::net_amount_percent(1_000, 25), 750);
}

#[test]
fn test_net_amount_percent_zero() {
    assert_eq!(FeeManager::net_amount_percent(500, 0), 500);
}

#[test]
fn test_split_bps_basic() {
    let (net, fee) = FeeManager::split_bps(1_000, 1_000);
    assert_eq!(net, 900);
    assert_eq!(fee, 100);
    assert_eq!(net + fee, 1_000);
}

#[test]
fn test_split_bps_zero_fee() {
    let (net, fee) = FeeManager::split_bps(500, 0);
    assert_eq!(net, 500);
    assert_eq!(fee, 0);
}

#[test]
fn test_split_bps_full_fee() {
    let (net, fee) = FeeManager::split_bps(300, 10_000);
    assert_eq!(net, 0);
    assert_eq!(fee, 300);
}

#[test]
fn test_split_bps_no_dust() {
    let amount = 10_001i128;
    let bps = 333u32;
    let (net, fee) = FeeManager::split_bps(amount, bps);
    assert_eq!(net + fee, amount);
}

#[test]
fn test_split_percent_basic() {
    let (net, fee) = FeeManager::split_percent(1_000, 20);
    assert_eq!(net, 800);
    assert_eq!(fee, 200);
    assert_eq!(net + fee, 1_000);
}

#[test]
fn test_split_percent_zero() {
    let (net, fee) = FeeManager::split_percent(1_000, 0);
    assert_eq!(net, 1_000);
    assert_eq!(fee, 0);
}

#[test]
fn test_split_percent_100() {
    let (net, fee) = FeeManager::split_percent(400, 100);
    assert_eq!(net, 0);
    assert_eq!(fee, 400);
}

#[test]
fn test_tiered_fee_first_tier() {
    let tiers: &[(i128, u32)] = &[(100, 500), (1_000, 300), (10_000, 100)];
    assert_eq!(FeeManager::calculate_tiered_fee(50, tiers), 2);
}

#[test]
fn test_tiered_fee_second_tier() {
    let tiers: &[(i128, u32)] = &[(100, 500), (1_000, 300), (10_000, 100)];
    assert_eq!(FeeManager::calculate_tiered_fee(500, tiers), 15);
}

#[test]
fn test_tiered_fee_third_tier() {
    let tiers: &[(i128, u32)] = &[(100, 500), (1_000, 300), (10_000, 100)];
    assert_eq!(FeeManager::calculate_tiered_fee(5_000, tiers), 50);
}

#[test]
fn test_tiered_fee_falls_through_to_last() {
    let tiers: &[(i128, u32)] = &[(100, 500), (1_000, 300), (10_000, 100)];
    assert_eq!(FeeManager::calculate_tiered_fee(50_000, tiers), 500);
}

#[test]
fn test_tiered_fee_exact_threshold_boundary() {
    let tiers: &[(i128, u32)] = &[(1_000, 200), (5_000, 100)];
    assert_eq!(FeeManager::calculate_tiered_fee(1_000, tiers), 20);
}

#[test]
fn test_tiered_fee_single_tier() {
    let tiers: &[(i128, u32)] = &[(i128::MAX, 1_000)];
    assert_eq!(FeeManager::calculate_tiered_fee(200, tiers), 20);
}

#[test]
fn test_compound_fee_single_rate() {
    assert_eq!(FeeManager::calculate_compound_fee(1_000, &[1_000]), 100);
}

#[test]
fn test_compound_fee_two_rates() {
    assert_eq!(FeeManager::calculate_compound_fee(1_000, &[1_000, 1_000]), 190);
}

#[test]
fn test_compound_fee_empty_rates() {
    assert_eq!(FeeManager::calculate_compound_fee(1_000, &[]), 0);
}

#[test]
fn compound_fee_stops_once_nothing_is_left() {
    assert_eq!(FeeManager::calculate_compound_fee(1_000, &[10_000, 500]), 1_000);
}

#[test]
fn test_compound_fee_zero_rates() {
    assert_eq!(FeeManager::calculate_compound_fee(1_000, &[0, 0, 0]), 0);
}

#[test]
fn test_percent_to_bps() {
    assert_eq!(FeeManager::percent_to_bps(0), 0);
    assert_eq!(FeeManager::percent_to_bps(1), 100);
    assert_eq!(FeeManager::percent_to_bps(10), 1_000);
    assert_eq!(FeeManager::percent_to_bps(50), 5_000);
    assert_eq!(FeeManager::percent_to_bps(100), 10_000);
}

#[test]
fn test_bps_to_percent() {
    assert_eq!(FeeManager::bps_to_percent(0), 0);
    assert_eq!(FeeManager::bps_to_percent(100), 1);
    assert_eq!(FeeManager::bps_to_percent(1_000), 10);
    assert_eq!(FeeManager::bps_to_percent(5_000), 50);
    assert_eq!(FeeManager::bps_to_percent(10_000), 100);
}

#[test]
fn test_percent_bps_round_trip() {
    for p in [0u32, 1, 5, 10, 25, 50, 75, 100] {
        let bps = FeeManager::percent_to_bps(p);
        let back = FeeManager::bps_to_percent(bps);
        assert_eq!(back, p, "round-trip failed for percent={p}");
    }
}

#[test]
fn percent_fee_equals_bps_fee_at_same_rate() {
    for (amount, p) in [(1_000i128, 10u32), (7_777, 33), (1, 100), (123_456_789, 0)] {
        assert_eq!(
            FeeManager::calculate_fee_percent(amount, p),
            FeeManager::calculate_fee_bps(amount, FeeManager::percent_to_bps(p))
        );
    }
}

#[test]
fn fee_never_decreases_with_rate() {
    let amount = 98_765i128;
    let mut previous = 0;
    for bps in [0u32, 1, 10, 333, 5_000, 9_999, 10_000] {
        let fee = FeeManager::calculate_fee_bps(amount, bps);
        assert!(fee >= previous);
        previous = fee;
    }
}

#[test]
fn compound_fee_with_full_rate_takes_everything() {
    assert_eq!(FeeManager::calculate_compound_fee(1_000, &[500, 10_000]), 1_000);
}
