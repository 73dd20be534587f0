use vstd::prelude::*;
use crate::vault::Vault;

verus! {

/// What the price and liquidity oracle reports for the vault's pool. The
/// liquidity and volume readings are percentages of the baseline recorded at
/// fractionalisation.
#[derive(Clone, Copy, Debug, PartialEq, Eq, Structural)]
pub struct PoolSnapshot {
    pub twap_price: u64,
    pub liquidity_percent: u64,
    pub volume_percent_30d: u64,
    pub pool_age_seconds: i64,
}

/// The first threshold that a reclaim fails.
#[derive(Clone, Copy, Debug, PartialEq, Eq, Structural)]
pub enum IneligibilityReason {
    PoolTooYoung,
    LiquidityTooLow,
    VolumeTooLow,
    HoldingTooLow,
}

/// The least holding that may reclaim: the vault's percentage of the supply,
/// truncated toward zero.
pub open spec fn required_holding(v: Vault) -> int {
    (v.min_reclaim_percentage as int * v.total_supply as int) / 100
}

/// The first pool threshold that fails, if any.
pub open spec fn pool_shortfall(v: Vault, pool: PoolSnapshot) -> Option<IneligibilityReason> {
    if pool.pool_age_seconds < v.min_lp_age_seconds {
        Some(IneligibilityReason::PoolTooYoung)
    } else if pool.liquidity_percent < v.min_liquidity_percent as u64 {
        Some(IneligibilityReason::LiquidityTooLow)
    } else if pool.volume_percent_30d < v.min_volume_percent_30d as u64 {
        Some(IneligibilityReason::VolumeTooLow)
    } else {
        None
    }
}

/// Eligibility of a holder of `holding` fraction tokens to reclaim.
pub open spec fn eligibility(v: Vault, pool: PoolSnapshot, holding: u64) -> Result<
    (),
    IneligibilityReason,
> {
    match pool_shortfall(v, pool) {
        Some(reason) => Err(reason),
        None => if holding < required_holding(v) {
            Err(IneligibilityReason::HoldingTooLow)
        } else {
            Ok(())
        },
    }
}

/// `holding >= required_holding(v)`, computed without overflow.
pub fn meets_required_holding(v: &Vault, holding: u64) -> (r: bool)
    ensures
        r == (holding >= required_holding(*v)),
{
    let pct = v.min_reclaim_percentage as u128;
    let supply = v.total_supply as u128;
    assert(pct * supply <= 255 * 0xffff_ffff_ffff_ffff) by (nonlinear_arith)
        requires
            pct <= 255,
            supply <= 0xffff_ffff_ffff_ffff,
    ;
    let required: u128 = pct * supply / 100;
    (holding as u128) >= required
}

/// Decides whether a holder of `holding` fraction tokens may start a reclaim,
/// naming the first threshold that fails: pool age, liquidity, 30-day volume,
/// then holding. Every bound is inclusive.
pub fn is_eligible(v: &Vault, pool: &PoolSnapshot, holding: u64) -> (r: Result<(), IneligibilityReason>)
    ensures
        r == eligibility(*v, *pool, holding),
{
    if pool.pool_age_seconds < v.min_lp_age_seconds {
        Err(IneligibilityReason::PoolTooYoung)
    } else if pool.liquidity_percent < v.min_liquidity_percent as u64 {
        Err(IneligibilityReason::LiquidityTooLow)
    } else if pool.volume_percent_30d < v.min_volume_percent_30d as u64 {
        Err(IneligibilityReason::VolumeTooLow)
    } else if !meets_required_holding(v, holding) {
        Err(IneligibilityReason::HoldingTooLow)
    } else {
        Ok(())
    }
}

} // verus!
