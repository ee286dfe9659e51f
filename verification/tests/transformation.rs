use commitlabs::transformation::contract::CommitmentTransformationContract;
use commitlabs::transformation::error::TransformationError;
use commitlabs::transformation::types::{TrancheStatus, TransformFailure};

fn s(x: &str) -> String {
    x.to_string()
}

fn setup() -> (String, String, String) {
    (s("admin"), s("core"), s("user"))
}

fn ready() -> CommitmentTransformationContract {
    let (admin, core, _) = setup();
    let mut c = CommitmentTransformationContract::new();
    c.initialize(admin, core).unwrap();
    c
}

fn contract_error(r: TransformFailure) -> TransformationError {
    match r {
        TransformFailure::Contract(e) => e,
        TransformFailure::Invalid(_) => panic!("expected a contract error"),
    }
}

#[test]
fn tests_test_initialize() {
    let c = ready();
    assert_eq!(c.get_admin(), Ok(s("admin")));
    assert_eq!(c.get_transformation_fee_bps(), 0);
}

#[test]
fn tests_test_initialize_twice_fails() {
    let mut c = ready();
    let err = c.initialize(s("admin"), s("core")).err().unwrap();
    assert_eq!(err.message(), "Contract already initialized");
}

#[test]
fn test_set_transformation_fee() {
    let mut c = ready();
    c.set_transformation_fee(&s("admin"), 100).unwrap();
    assert_eq!(c.get_transformation_fee_bps(), 100);
}

#[test]
fn test_set_transformation_fee_accepts_boundaries() {
    let mut c = ready();
    c.set_transformation_fee(&s("admin"), 0).unwrap();
    assert_eq!(c.get_transformation_fee_bps(), 0);
    c.set_transformation_fee(&s("admin"), 10_000).unwrap();
    assert_eq!(c.get_transformation_fee_bps(), 10_000);
}

#[test]
fn test_set_transformation_fee_rejects_above_max_and_preserves_value() {
    let mut c = ready();
    c.set_transformation_fee(&s("admin"), 250).unwrap();
    let result = c.set_transformation_fee(&s("admin"), 10_001);
    assert!(result.is_err());
    assert_eq!(c.get_transformation_fee_bps(), 250);
}

#[test]
fn test_set_authorized_transformer() {
    let mut c = ready();
    assert_eq!(c.set_authorized_transformer(&s("admin"), &s("user"), true), Ok(()));
    // user is now authorized: it may record collateral
    assert!(c.collateralize_at(&s("user"), s("c_1"), 1, s("asset"), 0).is_ok());
}

#[test]
fn test_create_tranches() {
    let mut c = ready();
    c.set_authorized_transformer(&s("admin"), &s("user"), true).unwrap();
    let commitment_id = s("c_1");
    let total_value = 1_000_000i128;
    let tranche_share_bps: Vec<u32> = vec![6000u32, 3000u32, 1000u32];
    let risk_levels: Vec<String> = vec![s("senior"), s("mezzanine"), s("equity")];
    let fee_asset = s("fee_asset"); // no fee when fee_bps=0
    let created = c
        .create_tranches_at(&s("user"), commitment_id.clone(), total_value, &tranche_share_bps, &risk_levels, &fee_asset, 0)
        .unwrap();
    c.reentrancy_guard = false;
    let id = created.transformation_id;
    assert!(!id.is_empty());
    assert_eq!(id, "tr0");

    let set = c.get_tranche_set(&id).unwrap();
    assert_eq!(set.commitment_id, commitment_id);
    assert_eq!(set.owner, "user");
    assert_eq!(set.total_value, total_value);
    assert_eq!(set.tranches.len(), 3);
    assert_eq!(c.get_commitment_tranche_sets(&commitment_id).len(), 1);
    assert_eq!(set.tranches[0].amount, 600_000);
    assert_eq!(set.tranches[1].amount, 300_000);
    assert_eq!(set.tranches[2].amount, 100_000);
    assert_eq!(set.tranches[2].tranche_id, "t2");
}

#[test]
fn test_create_tranches_invalid_ratios() {
    let mut c = ready();
    c.set_authorized_transformer(&s("admin"), &s("user"), true).unwrap();
    let tranche_share_bps: Vec<u32> = vec![5000u32, 3000u32];
    let risk_levels: Vec<String> = vec![s("senior"), s("mezzanine")];
    let err = c
        .create_tranches_at(&s("user"), s("c_1"), 1_000_000, &tranche_share_bps, &risk_levels, &s("fee_asset"), 0)
        .err()
        .unwrap();
    assert_eq!(err.message(), "Tranche ratios must sum to 100");
}

#[test]
fn test_collateralize() {
    let mut c = ready();
    c.set_authorized_transformer(&s("admin"), &s("user"), true).unwrap();
    let commitment_id = s("c_1");
    let asset = s("asset");
    let asset_id = c.collateralize_at(&s("user"), commitment_id.clone(), 500_000i128, asset.clone(), 0).unwrap();
    assert!(!asset_id.is_empty());
    let col = c.get_collateralized_asset(&asset_id).unwrap();
    assert_eq!(col.commitment_id, commitment_id);
    assert_eq!(col.owner, "user");
    assert_eq!(col.collateral_amount, 500_000i128);
    assert_eq!(col.asset_address, asset);
    assert_eq!(c.get_commitment_collateral(&commitment_id).len(), 1);
}

#[test]
fn test_create_secondary_instrument() {
    let mut c = ready();
    c.set_authorized_transformer(&s("admin"), &s("user"), true).unwrap();
    let commitment_id = s("c_1");
    let instrument_type = s("receivable");
    let amount = 200_000i128;
    let instrument_id = c
        .create_secondary_instrument_at(&s("user"), commitment_id.clone(), instrument_type.clone(), amount, 0)
        .unwrap();
    assert!(!instrument_id.is_empty());
    let inst = c.get_secondary_instrument(&instrument_id).unwrap();
    assert_eq!(inst.commitment_id, commitment_id);
    assert_eq!(inst.owner, "user");
    assert_eq!(inst.instrument_type, instrument_type);
    assert_eq!(inst.amount, amount);
    assert_eq!(c.get_commitment_instruments(&commitment_id).len(), 1);
}

#[test]
fn test_add_protocol_guarantee() {
    let mut c = ready();
    c.set_authorized_transformer(&s("admin"), &s("user"), true).unwrap();
    let commitment_id = s("c_1");
    let guarantee_type = s("liquidity_backstop");
    let terms_hash = s("0xabc123");
    let guarantee_id = c
        .add_protocol_guarantee_at(&s("user"), commitment_id.clone(), guarantee_type.clone(), terms_hash.clone(), 0)
        .unwrap();
    assert!(!guarantee_id.is_empty());
    let guar = c.get_protocol_guarantee(&guarantee_id).unwrap();
    assert_eq!(guar.commitment_id, commitment_id);
    assert_eq!(guar.guarantee_type, guarantee_type);
    assert_eq!(guar.terms_hash, terms_hash);
    assert_eq!(c.get_commitment_guarantees(&commitment_id).len(), 1);
}

#[test]
fn test_create_tranches_unauthorized() {
    let mut c = ready();
    let tranche_share_bps: Vec<u32> = vec![6000u32, 4000u32];
    let risk_levels: Vec<String> = vec![s("senior"), s("equity")];
    let err = c
        .create_tranches_at(&s("stranger"), s("c_1"), 1_000_000, &tranche_share_bps, &risk_levels, &s("fee_asset"), 0)
        .err()
        .unwrap();
    assert!(err.message().starts_with("Unauthorized"));
}

#[test]
fn test_transformation_with_fee() {
    let mut c = ready();
    c.set_transformation_fee(&s("admin"), 0).unwrap(); // 0%: nothing to collect
    c.set_authorized_transformer(&s("admin"), &s("user"), true).unwrap();
    let total_value = 1_000_000i128;
    let created = c
        .create_tranches_at(&s("user"), s("c_1"), total_value, &vec![10000u32], &vec![s("senior")], &s("fee_asset"), 0)
        .unwrap();
    let set = c.get_tranche_set(&created.transformation_id).unwrap();
    assert_eq!(set.fee_paid, 0i128); // 0% fee
    assert_eq!(set.total_value, total_value);
}

#[test]
fn test_transformation_fee_calculation_and_collection() {
    // 1% of 1_000_000 = 10_000
    let fee_bps: u32 = 100;
    let total_value: i128 = 1_000_000;
    let expected_fee = (total_value * fee_bps as i128) / 10000;
    assert_eq!(expected_fee, 10_000);

    let mut c = ready();
    c.set_transformation_fee(&s("admin"), fee_bps).unwrap();
    let created = c
        .create_tranches_at(&s("admin"), s("c_1"), total_value, &vec![10000u32], &vec![s("senior")], &s("fee_asset"), 0)
        .unwrap();
    assert_eq!(created.fee_amount, expected_fee);
    assert_eq!(c.get_collected_fees(&s("fee_asset")), expected_fee);
    let set = c.get_tranche_set(&created.transformation_id).unwrap();
    assert_eq!(set.tranches[0].amount, total_value - expected_fee);
}

#[test]
fn test_fee_set_and_get_fee_recipient() {
    let mut c = ready();
    assert!(c.get_fee_recipient().is_none());
    c.set_fee_recipient(&s("admin"), s("treasury")).unwrap();
    assert_eq!(c.get_fee_recipient().unwrap(), "treasury");
}

#[test]
fn test_fee_get_collected_fees_default() {
    let c = ready();
    assert_eq!(c.get_collected_fees(&s("asset")), 0);
}

#[test]
fn test_fee_withdraw_requires_recipient() {
    let mut c = ready();
    let err = c.withdraw_fees(&s("admin"), &s("asset"), 100).err().unwrap();
    assert_eq!(err.message(), "Fee recipient not set");
}

#[test]
fn test_fee_withdraw_rejects_amount_above_collected_fees() {
    let mut c = ready();
    c.set_fee_recipient(&s("admin"), s("treasury")).unwrap();
    let err = c.withdraw_fees(&s("admin"), &s("asset"), 1).err().unwrap();
    assert_eq!(err.message(), "Insufficient collected fees to withdraw");
}

#[test]
fn test_fee_withdraw_rejects_zero_amount() {
    let mut c = ready();
    c.set_fee_recipient(&s("admin"), s("treasury")).unwrap();
    let err = c.withdraw_fees(&s("admin"), &s("asset"), 0).err().unwrap();
    assert_eq!(err.message(), "Invalid amount: must be positive");
}

#[test]
fn test_fee_withdraw_requires_admin() {
    let mut c = ready();
    c.set_fee_recipient(&s("admin"), s("treasury")).unwrap();
    let err = c.withdraw_fees(&s("user"), &s("asset"), 1).err().unwrap();
    assert_eq!(err.message(), "Unauthorized: caller not owner or authorized");
}

#[test]
fn test_fee_withdraw_transfers_collected_fees_to_recipient() {
    let mut c = ready();
    c.set_authorized_transformer(&s("admin"), &s("user"), true).unwrap();
    c.set_transformation_fee(&s("admin"), 100).unwrap();
    c.set_fee_recipient(&s("admin"), s("treasury")).unwrap();
    let total_value = 1_000_000i128;
    let expected_fee = 10_000i128;
    let created = c
        .create_tranches_at(&s("user"), s("c_fee"), total_value, &vec![10_000u32], &vec![s("senior")], &s("fee_asset"), 0)
        .unwrap();
    c.reentrancy_guard = false;
    assert_eq!(created.fee_amount, expected_fee);
    let tranche_set = c.get_tranche_set(&created.transformation_id).unwrap();
    assert_eq!(tranche_set.fee_paid, expected_fee);
    assert_eq!(c.get_collected_fees(&s("fee_asset")), expected_fee);
    assert_eq!(c.withdraw_fees(&s("admin"), &s("fee_asset"), expected_fee), Ok(s("treasury")));
    assert_eq!(c.get_collected_fees(&s("fee_asset")), 0);
}

// ---------------------------------------------------------------------------
// Tranche lifecycle
// ---------------------------------------------------------------------------

#[test]
fn tranche_updates_allocations_and_closing() {
    let mut c = ready();
    c.set_authorized_transformer(&s("admin"), &s("user"), true).unwrap();
    c.create_tranches_at(&s("user"), s("c_1"), 1_000, &vec![7_000u32, 3_000u32], &vec![s("senior"), s("equity")], &s("fee"), 5)
        .unwrap();
    assert_eq!(
        c.update_tranche_at(&s("user"), &s("t0"), s("junior"), 6).err(),
        Some(TransformFailure::Contract(TransformationError::ReentrancyDetected))
    );
    c.reentrancy_guard = false;
    let t = c.update_tranche_at(&s("user"), &s("t0"), s("junior"), 6).unwrap();
    assert_eq!(t.risk_level, "junior");
    assert_eq!(t.updated_at, 6);
    assert_eq!(t.amount, 700);
    // the admin is authorized but does not own the set
    assert_eq!(
        contract_error(c.update_tranche_at(&s("admin"), &s("t0"), s("x"), 6).err().unwrap()),
        TransformationError::Unauthorized
    );
    let t = c.allocate_to_tranche_at(&s("user"), &s("t1"), 50, 7).unwrap();
    assert_eq!(t.amount, 350);
    let t = c.allocate_to_tranche_at(&s("user"), &s("t1"), -350, 8).unwrap();
    assert_eq!(t.amount, 0);
    assert_eq!(
        contract_error(c.allocate_to_tranche_at(&s("user"), &s("t1"), -1, 9).err().unwrap()),
        TransformationError::InvalidAmount
    );
    let closed = c.close_tranche_at(&s("user"), &s("t1"), 10).unwrap();
    assert_eq!(closed.status, TrancheStatus::Closed);
    assert_eq!(
        contract_error(c.allocate_to_tranche_at(&s("user"), &s("t1"), 5, 11).err().unwrap()),
        TransformationError::InvalidState
    );
    assert_eq!(
        contract_error(c.close_tranche_at(&s("user"), &s("t1"), 11).err().unwrap()),
        TransformationError::InvalidState
    );
    assert_eq!(
        contract_error(c.update_tranche_at(&s("user"), &s("t9"), s("x"), 11).err().unwrap()),
        TransformationError::TransformationNotFound
    );
    assert_eq!(c.get_tranche(&s("t1")).unwrap().status, TrancheStatus::Closed);
}

#[test]
fn records_share_one_counter() {
    let mut c = ready();
    assert_eq!(c.collateralize_at(&s("admin"), s("c_1"), 10, s("a"), 0), Ok(s("col0")));
    assert_eq!(c.create_secondary_instrument_at(&s("admin"), s("c_1"), s("r"), 10, 0), Ok(s("sec1")));
    assert_eq!(c.add_protocol_guarantee_at(&s("admin"), s("c_1"), s("g"), s("h"), 0), Ok(s("guar2")));
    assert_eq!(c.collateralize_at(&s("admin"), s("c_1"), 20, s("a"), 0), Ok(s("col3")));
    assert_eq!(c.get_commitment_collateral(&s("c_1")), vec![s("col0"), s("col3")]);
    assert!(c.get_commitment_collateral(&s("c_2")).is_empty());
    assert_eq!(
        c.collateralize_at(&s("admin"), s("c_1"), 0, s("a"), 0).err().unwrap().message(),
        "Invalid amount: must be greater than zero"
    );
    assert_eq!(
        contract_error(c.get_collateralized_asset(&s("col9")).err().unwrap()),
        TransformationError::TransformationNotFound
    );
}

#[test]
fn uninitialized_admin_calls_fail() {
    let mut c = CommitmentTransformationContract::new();
    assert_eq!(
        contract_error(c.set_transformation_fee(&s("admin"), 5).err().unwrap()),
        TransformationError::NotInitialized
    );
    assert_eq!(
        contract_error(c.get_admin().err().unwrap()),
        TransformationError::NotInitialized
    );
}

#[test]
fn tranche_ids_stay_unique_across_sets() {
    let mut c = ready();
    c.set_authorized_transformer(&s("admin"), &s("admin"), true).unwrap();
    let fee_asset = s("fee_asset");
    // a split into eleven tranches is accepted: t0..t9, then t0_10
    let mut eleven: Vec<u32> = vec![900u32; 10];
    eleven.push(1_000);
    let levels11: Vec<String> = (0..11).map(|i| format!("level{}", i)).collect();
    let first = c
        .create_tranches_at(&s("admin"), s("c_1"), 1_000_000, &eleven, &levels11, &fee_asset, 0)
        .unwrap();
    c.release_reentrancy_guard();
    let set0 = c.get_tranche_set(&first.transformation_id).unwrap();
    assert_eq!(set0.tranches.len(), 11);
    assert_eq!(set0.tranches[9].tranche_id, "t9");
    assert_eq!(set0.tranches[10].tranche_id, "t0_10");
    assert_eq!(set0.tranches[10].amount, 100_000);
    assert_eq!(set0.tranches[10].risk_level, "level10");
    // the next set starts at t10 and leaves the first set's tranches alone
    let second = c
        .create_tranches_at(&s("admin"), s("c_2"), 500_000, &vec![10_000u32], &vec![s("senior")], &fee_asset, 0)
        .unwrap();
    c.release_reentrancy_guard();
    let set1 = c.get_tranche_set(&second.transformation_id).unwrap();
    assert_eq!(set1.tranches[0].tranche_id, "t10");
    assert_eq!(c.get_tranche(&s("t9")).unwrap().amount, 90_000);
    assert_eq!(c.get_tranche(&s("t0_10")).unwrap().amount, 100_000);
    assert_eq!(c.get_tranche(&s("t10")).unwrap().amount, 500_000);
    assert_eq!(c.get_tranche(&s("t0")).unwrap().commitment_id, "c_1");
}

#[test]
fn tranche_refusal_and_fit_checks() {
    let mut c = ready();
    c.set_authorized_transformer(&s("admin"), &s("user"), true).unwrap();
    let shares: Vec<u32> = vec![6_000, 4_000];
    assert_eq!(
        c.tranches_refusal(&s("mallory"), 1_000, &shares, 2).map(contract_error),
        Some(TransformationError::Unauthorized)
    );
    assert_eq!(
        c.tranches_refusal(&s("user"), 1_000, &shares, 3).map(contract_error),
        Some(TransformationError::InvalidTrancheRatios)
    );
    assert_eq!(
        c.tranches_refusal(&s("user"), 1_000, &vec![6_000, 3_000], 2).map(contract_error),
        Some(TransformationError::InvalidTrancheRatios)
    );
    assert!(c.tranches_refusal(&s("user"), 1_000, &shares, 2).is_none());
    assert!(c.fits_tranches(1_000, &shares, &s("fee_asset")));
    assert!(!c.fits_tranches(i128::MAX / 2, &shares, &s("fee_asset")));
    c.set_transformation_fee(&s("admin"), 100).unwrap();
    assert!(!c.fits_tranches(i128::MAX / 50, &shares, &s("fee_asset")));
    assert!(c.fits_tranches(1_000_000, &shares, &s("fee_asset")));
}
