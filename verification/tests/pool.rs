use pool_ledger::error::{BusinessRule, LedgerError};
use pool_ledger::identity::{check_owner, Identity};
use pool_ledger::pool::{AssetType, Pool, PoolParam, RiskType};

fn key(n: u8) -> Identity {
    Identity::new([n; 32])
}

fn sample_param() -> PoolParam {
    PoolParam {
        pool_name: String::from("alpha"),
        risk_type: 1,
        apy: 10,
        min_period: 3600,
        asset_pubkey: key(9),
        asset_type: 2,
        investment_arm: 4,
        base_value: 77,
    }
}

fn sample_pool() -> Pool {
    Pool::create(1, key(1), sample_param(), RiskType::Medium, AssetType::Ordinals)
}

#[test]
fn asset_codes_decode_in_order() {
    assert_eq!(AssetType::from_u8(0), Ok(AssetType::BTC));
    assert_eq!(AssetType::from_u8(1), Ok(AssetType::Runes));
    assert_eq!(AssetType::from_u8(2), Ok(AssetType::Ordinals));
}

#[test]
fn unknown_asset_code_is_a_validation_error() {
    assert_eq!(AssetType::from_u8(3), Err(LedgerError::Validation));
    assert_eq!(AssetType::from_u8(255), Err(LedgerError::Validation));
}

#[test]
fn risk_codes_decode_in_order() {
    assert_eq!(RiskType::from_u8(0), Ok(RiskType::Low));
    assert_eq!(RiskType::from_u8(1), Ok(RiskType::Medium));
    assert_eq!(RiskType::from_u8(2), Ok(RiskType::High));
}

#[test]
fn unknown_risk_code_is_a_validation_error() {
    assert_eq!(RiskType::from_u8(3), Err(LedgerError::Validation));
}

#[test]
fn codes_round_trip() {
    for asset in [AssetType::BTC, AssetType::Runes, AssetType::Ordinals] {
        assert_eq!(AssetType::from_u8(asset.to_u8()), Ok(asset));
    }
    for risk in [RiskType::Low, RiskType::Medium, RiskType::High] {
        assert_eq!(RiskType::from_u8(risk.to_u8()), Ok(risk));
    }
    assert_eq!(AssetType::Ordinals.to_u8(), 2);
    assert_eq!(RiskType::High.to_u8(), 2);
}

#[test]
fn a_new_pool_is_empty_and_active() {
    let pool = sample_pool();
    assert_eq!(pool.pool_id, 1);
    assert_eq!(pool.pool_pubkey, key(1));
    assert_eq!(pool.pool_name, "alpha");
    assert_eq!(pool.risk_type, RiskType::Medium);
    assert_eq!(pool.asset_type, AssetType::Ordinals);
    assert_eq!(pool.apy, 10);
    assert_eq!(pool.min_period, 3600);
    assert_eq!(pool.tvl, 0);
    assert_eq!(pool.total_unit, 0);
    assert_eq!(pool.base_value, 77);
    assert_eq!(pool.investment_arm, 4);
    assert_eq!(pool.cover_units, 0);
    assert_eq!(pool.tcp, 0);
    assert!(pool.is_active);
    assert_eq!(pool.asset_pubkey, key(9));
}

#[test]
fn apply_deposit_grows_both_aggregates() {
    let mut pool = sample_pool();
    assert_eq!(pool.apply_deposit(500), Ok(()));
    assert_eq!(pool.apply_deposit(250), Ok(()));
    assert_eq!(pool.tvl, 750);
    assert_eq!(pool.total_unit, 750);
    assert_eq!(pool.base_value, 77);
}

#[test]
fn apply_deposit_refuses_overflow_and_changes_nothing() {
    let mut pool = sample_pool();
    pool.tvl = u64::MAX - 10;
    pool.total_unit = u64::MAX - 10;
    let before = pool.duplicate();
    assert_eq!(pool.apply_deposit(11), Err(LedgerError::Arithmetic));
    assert_eq!(pool, before);
    assert_eq!(pool.apply_deposit(10), Ok(()));
    assert_eq!(pool.tvl, u64::MAX);
}

#[test]
fn apply_deposit_refuses_overflow_of_the_units_alone() {
    let mut pool = sample_pool();
    pool.tvl = 5;
    pool.total_unit = u64::MAX;
    let before = pool.duplicate();
    assert_eq!(pool.apply_deposit(1), Err(LedgerError::Arithmetic));
    assert_eq!(pool, before);
}

#[test]
fn apply_withdrawal_shrinks_both_aggregates() {
    let mut pool = sample_pool();
    pool.tvl = 900;
    pool.total_unit = 900;
    assert_eq!(pool.apply_withdrawal(400), Ok(()));
    assert_eq!(pool.tvl, 500);
    assert_eq!(pool.total_unit, 500);
    assert_eq!(pool.apply_withdrawal(500), Ok(()));
    assert_eq!(pool.tvl, 0);
}

#[test]
fn apply_withdrawal_refuses_more_than_is_locked() {
    let mut pool = sample_pool();
    pool.tvl = 900;
    pool.total_unit = 900;
    let before = pool.duplicate();
    assert_eq!(
        pool.apply_withdrawal(901),
        Err(LedgerError::BusinessRule(BusinessRule::InsufficientFunds))
    );
    assert_eq!(pool, before);
}

#[test]
fn apply_withdrawal_refuses_more_than_the_units() {
    let mut pool = sample_pool();
    pool.tvl = 900;
    pool.total_unit = 100;
    let before = pool.duplicate();
    assert_eq!(pool.apply_withdrawal(500), Err(LedgerError::Arithmetic));
    assert_eq!(pool, before);
}

#[test]
fn duplicate_is_an_equal_record() {
    let mut pool = sample_pool();
    pool.tvl = 12;
    assert_eq!(pool.duplicate(), pool);
}

#[test]
fn identities_compare_by_their_bytes() {
    let mut bytes = [7u8; 32];
    assert_eq!(Identity::new(bytes), key(7));
    bytes[31] = 8;
    assert_ne!(Identity::new(bytes), key(7));
    bytes[31] = 7;
    bytes[0] = 0;
    assert_ne!(Identity::new(bytes), key(7));
}

#[test]
fn a_record_must_belong_to_the_domain() {
    assert_eq!(check_owner(&key(1), &key(1)), Ok(()));
    assert_eq!(check_owner(&key(1), &key(2)), Err(LedgerError::Ownership));
}
