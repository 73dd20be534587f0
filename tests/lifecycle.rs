use fraction_vault::compensation::{compute_total_compensation, disburse};
use fraction_vault::error::VaultError;
use fraction_vault::escrow::{
    cancel_or_expire_reclaim, close, finalize_precondition, finalize_reclaim, initiate_reclaim,
    keys_equal,
};
use fraction_vault::threshold::{is_eligible, IneligibilityReason, PoolSnapshot};
use fraction_vault::vault::{
    unset_key, Key, Vault, VaultStatus, DEFAULT_MIN_LIQUIDITY_PERCENT,
    DEFAULT_MIN_RECLAIM_PERCENTAGE, DEFAULT_MIN_VOLUME_PERCENT_30D,
};

const CREATED: i64 = 1_700_000_000;
const MIN_AGE: i64 = 86_400;
const WINDOW: i64 = 3_600;
const EXPIRY: i64 = 7 * 86_400;

fn key(b: u8) -> Key {
    [b; 32]
}

fn vault() -> Vault {
    Vault::new(
        key(1),
        key(2),
        key(3),
        1_000_000,
        key(4),
        CREATED,
        255,
        MIN_AGE,
        DEFAULT_MIN_RECLAIM_PERCENTAGE,
        DEFAULT_MIN_LIQUIDITY_PERCENT,
        DEFAULT_MIN_VOLUME_PERCENT_30D,
    )
}

/// Every reading exactly at the vault's thresholds.
fn pool_at_threshold(price: u64) -> PoolSnapshot {
    PoolSnapshot {
        twap_price: price,
        liquidity_percent: 5,
        volume_percent_30d: 10,
        pool_age_seconds: MIN_AGE,
    }
}

fn initiated_vault() -> Vault {
    let mut v = vault();
    let rest = initiate_reclaim(&mut v, key(9), 800_000, 800_000, &pool_at_threshold(2_000_000), CREATED + 10);
    assert_eq!(rest, Ok(0));
    v
}

#[test]
fn new_vault_is_active_with_no_escrow() {
    let v = vault();
    assert_eq!(v.status, VaultStatus::Active);
    assert_eq!(v.reclaim_initiator, unset_key());
    assert_eq!(v.tokens_in_escrow, 0);
    assert_eq!(v.total_compensation, 0);
    assert_eq!(v.remaining_compensation, 0);
    assert_eq!(v.min_reclaim_percentage, 80);
    assert_eq!(Vault::INIT_SPACE, 237);
}

#[test]
fn status_names() {
    assert_eq!(VaultStatus::Active.name(), "Active");
    assert_eq!(VaultStatus::ReclaimInitiated.name(), "ReclaimInitiated");
    assert_eq!(VaultStatus::ReclaimedFinalized.name(), "ReclaimedFinalized");
    assert_eq!(VaultStatus::Closed.name(), "Closed");
}

#[test]
fn eligibility_boundary_is_inclusive() {
    let v = vault();
    let pool = pool_at_threshold(1);
    assert_eq!(is_eligible(&v, &pool, 800_000), Ok(()));
    assert_eq!(is_eligible(&v, &pool, 799_999), Err(IneligibilityReason::HoldingTooLow));
}

#[test]
fn eligibility_names_first_failing_threshold() {
    let v = vault();
    let mut pool = pool_at_threshold(1);
    pool.pool_age_seconds = MIN_AGE - 1;
    pool.liquidity_percent = 4;
    assert_eq!(is_eligible(&v, &pool, 800_000), Err(IneligibilityReason::PoolTooYoung));
    pool.pool_age_seconds = MIN_AGE;
    assert_eq!(is_eligible(&v, &pool, 800_000), Err(IneligibilityReason::LiquidityTooLow));
    pool.liquidity_percent = 5;
    pool.volume_percent_30d = 9;
    assert_eq!(is_eligible(&v, &pool, 800_000), Err(IneligibilityReason::VolumeTooLow));
}

#[test]
fn required_holding_truncates_toward_zero() {
    let mut v = vault();
    v.total_supply = 999;
    // 80% of 999 is 799.2: 799 suffices, 798 does not.
    let pool = pool_at_threshold(1);
    assert_eq!(is_eligible(&v, &pool, 799), Ok(()));
    assert_eq!(is_eligible(&v, &pool, 798), Err(IneligibilityReason::HoldingTooLow));
}

#[test]
fn initiate_at_threshold_succeeds() {
    let v = initiated_vault();
    assert_eq!(v.status, VaultStatus::ReclaimInitiated);
    assert_eq!(v.reclaim_initiator, key(9));
    assert_eq!(v.reclaim_initiation_timestamp, CREATED + 10);
    assert_eq!(v.tokens_in_escrow, 800_000);
    assert_eq!(v.twap_price_at_reclaim, 2_000_000);
    assert_eq!(v.total_compensation, 200_000 * 2_000_000);
    assert_eq!(v.remaining_compensation, v.total_compensation);
}

#[test]
fn initiate_one_below_threshold_is_insufficient_holding() {
    let mut v = vault();
    let before = v;
    let r = initiate_reclaim(&mut v, key(9), 799_999, 799_999, &pool_at_threshold(1), CREATED);
    assert_eq!(r, Err(VaultError::InsufficientHolding));
    assert_eq!(v, before);
}

#[test]
fn initiate_returns_balance_left_outside_escrow() {
    let mut v = vault();
    let r = initiate_reclaim(&mut v, key(9), 950_000, 850_000, &pool_at_threshold(3), CREATED);
    assert_eq!(r, Ok(100_000));
    assert_eq!(v.tokens_in_escrow + 100_000, 950_000);
    assert_eq!(v.total_compensation, 150_000 * 3);
    assert_eq!(v.total_compensation, v.remaining_compensation);
}

#[test]
fn initiate_more_than_held_is_insufficient_holding() {
    let mut v = vault();
    let r = initiate_reclaim(&mut v, key(9), 800_000, 800_001, &pool_at_threshold(1), CREATED);
    assert_eq!(r, Err(VaultError::InsufficientHolding));
    assert_eq!(v, vault());
}

#[test]
fn initiate_with_thin_pool_is_not_eligible() {
    let mut v = vault();
    let mut pool = pool_at_threshold(1);
    pool.volume_percent_30d = 0;
    let r = initiate_reclaim(&mut v, key(9), 1_000_000, 1_000_000, &pool, CREATED);
    assert_eq!(r, Err(VaultError::NotEligible));
    assert_eq!(v, vault());
}

#[test]
fn initiate_with_overflowing_compensation_is_refused() {
    let mut v = vault();
    let r = initiate_reclaim(&mut v, key(9), 800_000, 800_000, &pool_at_threshold(u64::MAX), CREATED);
    assert_eq!(r, Err(VaultError::CompensationOverflow));
    assert_eq!(v, vault());
}

#[test]
fn second_initiation_observes_invalid_state() {
    let mut v = vault();
    let pool = pool_at_threshold(2);
    assert_eq!(initiate_reclaim(&mut v, key(9), 900_000, 900_000, &pool, CREATED), Ok(0));
    let after_first = v;
    let r = initiate_reclaim(&mut v, key(8), 900_000, 900_000, &pool, CREATED + 1);
    assert_eq!(r, Err(VaultError::InvalidState));
    assert_eq!(v, after_first);
    assert_eq!(v.reclaim_initiator, key(9));
}

#[test]
fn cancel_right_after_initiate_restores_vault() {
    let mut v = initiated_vault();
    let r = cancel_or_expire_reclaim(&mut v, key(9), EXPIRY, CREATED + 10);
    assert_eq!(r, Ok(800_000));
    assert_eq!(v, vault());
}

#[test]
fn cancel_by_stranger_waits_for_expiry() {
    let mut v = initiated_vault();
    let before = v;
    let r = cancel_or_expire_reclaim(&mut v, key(7), EXPIRY, CREATED + 10 + EXPIRY - 1);
    assert_eq!(r, Err(VaultError::CancelNotAllowed));
    assert_eq!(v, before);
    let r = cancel_or_expire_reclaim(&mut v, key(7), EXPIRY, CREATED + 10 + EXPIRY);
    assert_eq!(r, Ok(800_000));
    assert_eq!(v.status, VaultStatus::Active);
}

#[test]
fn finalize_waits_for_escrow_window() {
    let mut v = initiated_vault();
    let before = v;
    let early = CREATED + 10 + WINDOW - 1;
    assert_eq!(finalize_precondition(&v, WINDOW, early), Err(VaultError::EscrowWindowOpen));
    assert_eq!(finalize_reclaim(&mut v, WINDOW, true, early), Err(VaultError::EscrowWindowOpen));
    assert_eq!(v, before);
    assert_eq!(finalize_precondition(&v, WINDOW, early + 1), Ok(()));
}

#[test]
fn failed_transfer_leaves_vault_unchanged() {
    let mut v = initiated_vault();
    let before = v;
    let r = finalize_reclaim(&mut v, WINDOW, false, CREATED + 10 + WINDOW);
    assert_eq!(r, Err(VaultError::AssetTransferFailed));
    assert_eq!(v, before);
}

#[test]
fn finalize_keeps_compensation_snapshot() {
    let mut v = initiated_vault();
    let now = CREATED + 10 + WINDOW;
    assert_eq!(finalize_reclaim(&mut v, WINDOW, true, now), Ok(()));
    assert_eq!(v.status, VaultStatus::ReclaimedFinalized);
    assert_eq!(v.reclaim_timestamp, now);
    assert_eq!(v.twap_price_at_reclaim, 2_000_000);
    assert_eq!(v.total_compensation, 400_000_000_000);
    assert_eq!(v.remaining_compensation, 400_000_000_000);
}

#[test]
fn compensation_is_owed_for_unescrowed_units() {
    assert_eq!(compute_total_compensation(1_000_000, 800_000, 2_000_000), Some(400_000_000_000));
    assert_eq!(compute_total_compensation(1_000_000, 1_000_000, 2_000_000), Some(0));
    assert_eq!(compute_total_compensation(u64::MAX, 0, 2), None);
}

#[test]
fn two_disbursements_drain_compensation() {
    let mut v = initiated_vault();
    assert_eq!(finalize_reclaim(&mut v, WINDOW, true, CREATED + 10 + WINDOW), Ok(()));
    assert_eq!(v.total_compensation, 200_000 * 2_000_000);
    assert_eq!(disburse(&mut v, 150_000), Ok(300_000_000_000));
    assert_eq!(v.remaining_compensation, 100_000_000_000);
    assert_eq!(disburse(&mut v, 50_000), Ok(100_000_000_000));
    assert_eq!(v.remaining_compensation, 0);
    let before = v;
    assert_eq!(disburse(&mut v, 1), Err(VaultError::InsufficientEscrow));
    assert_eq!(v, before);
}

#[test]
fn disburse_never_short_pays() {
    let mut v = initiated_vault();
    assert_eq!(finalize_reclaim(&mut v, WINDOW, true, CREATED + 10 + WINDOW), Ok(()));
    let before = v;
    assert_eq!(disburse(&mut v, 200_001), Err(VaultError::InsufficientEscrow));
    assert_eq!(v, before);
    assert_eq!(disburse(&mut v, u64::MAX), Err(VaultError::InsufficientEscrow));
    assert_eq!(v, before);
    assert_eq!(disburse(&mut v, 200_000), Ok(400_000_000_000));
}

#[test]
fn disburse_before_finalization_is_invalid_state() {
    let mut v = initiated_vault();
    let before = v;
    assert_eq!(disburse(&mut v, 1), Err(VaultError::InvalidState));
    assert_eq!(v, before);
}

#[test]
fn close_after_full_disbursement_is_terminal() {
    let mut v = initiated_vault();
    assert_eq!(finalize_reclaim(&mut v, WINDOW, true, CREATED + 10 + WINDOW), Ok(()));
    let before = v;
    assert_eq!(close(&mut v), Err(VaultError::InvalidState));
    assert_eq!(v, before);
    assert_eq!(disburse(&mut v, 200_000), Ok(400_000_000_000));
    assert_eq!(close(&mut v), Ok(()));
    assert_eq!(v.status, VaultStatus::Closed);
    let closed = v;
    let pool = pool_at_threshold(1);
    assert_eq!(initiate_reclaim(&mut v, key(9), 900_000, 900_000, &pool, CREATED + 99), Err(VaultError::InvalidState));
    assert_eq!(finalize_reclaim(&mut v, 0, true, CREATED + 99), Err(VaultError::InvalidState));
    assert_eq!(cancel_or_expire_reclaim(&mut v, key(9), 0, CREATED + 99), Err(VaultError::InvalidState));
    assert_eq!(disburse(&mut v, 0), Err(VaultError::InvalidState));
    assert_eq!(close(&mut v), Err(VaultError::InvalidState));
    assert_eq!(v, closed);
}

#[test]
fn illegal_edges_from_active_are_invalid_state() {
    let mut v = vault();
    assert_eq!(finalize_reclaim(&mut v, 0, true, CREATED), Err(VaultError::InvalidState));
    assert_eq!(cancel_or_expire_reclaim(&mut v, key(9), 0, CREATED), Err(VaultError::InvalidState));
    assert_eq!(close(&mut v), Err(VaultError::InvalidState));
    assert_eq!(v, vault());
}

#[test]
fn keys_compare_by_every_byte() {
    let a = key(5);
    let mut b = key(5);
    assert!(keys_equal(&a, &b));
    b[31] = 6;
    assert!(!keys_equal(&a, &b));
}
