use vstd::prelude::*;
use crate::compensation::{compensation_owed, compute_total_compensation};
use crate::error::VaultError;
use crate::threshold::{
    IneligibilityReason,
    PoolSnapshot,
    is_eligible,
    meets_required_holding,
    pool_shortfall,
    required_holding,
};
use crate::vault::{Key, Vault, VaultStatus, spec_unset_key, unset_key};

verus! {

/// Whether two identifiers are the same, byte for byte.
pub fn keys_equal(a: &Key, b: &Key) -> (r: bool)
    ensures
        r == (*a == *b),
{
    let mut i: usize = 0;
    while i < 32
        invariant
            i <= 32,
            forall|j: int| 0 <= j < i ==> a@[j] == b@[j],
        decreases 32 - i,
    {
        if a[i] != b[i] {
            assert(a@[i as int] != b@[i as int]);
            return false;
        }
        i = i + 1;
    }
    assert(*a =~= *b);
    true
}

/// At least `window` seconds have passed since `since`, and the clock has not
/// gone back.
pub open spec fn has_elapsed(since: i64, window: i64, now: i64) -> bool {
    now >= since && now - since >= window
}

fn elapsed(since: i64, window: i64, now: i64) -> (r: bool)
    ensures
        r == has_elapsed(since, window, now),
{
    now >= since && (now as i128) - (since as i128) >= window as i128
}

// ---- initiation ----

/// Why an initiation is refused, if it is: status first, then the pool
/// thresholds, then the holding presented, then the size of the compensation.
pub open spec fn initiate_error(
    v: Vault,
    holder_balance: u64,
    fraction_amount: u64,
    pool: PoolSnapshot,
) -> Option<VaultError> {
    if v.status != VaultStatus::Active {
        Some(VaultError::InvalidState)
    } else if pool_shortfall(v, pool) is Some {
        Some(VaultError::NotEligible)
    } else if fraction_amount > holder_balance || fraction_amount < required_holding(v) {
        Some(VaultError::InsufficientHolding)
    } else if compensation_owed(v.total_supply, fraction_amount, pool.twap_price) > u64::MAX {
        Some(VaultError::CompensationOverflow)
    } else {
        None
    }
}

/// The vault once a reclaim has been initiated.
pub open spec fn initiated(
    v: Vault,
    initiator: Key,
    fraction_amount: u64,
    pool: PoolSnapshot,
    now: i64,
) -> Vault {
    let owed = compensation_owed(v.total_supply, fraction_amount, pool.twap_price) as u64;
    Vault {
        status: VaultStatus::ReclaimInitiated,
        reclaim_initiator: initiator,
        reclaim_initiation_timestamp: now,
        tokens_in_escrow: fraction_amount,
        twap_price_at_reclaim: pool.twap_price,
        total_compensation: owed,
        remaining_compensation: owed,
        ..v
    }
}

/// The vault and the result after an initiation; on success the result is
/// what the initiator keeps outside escrow.
pub open spec fn initiate_outcome(
    v: Vault,
    initiator: Key,
    holder_balance: u64,
    fraction_amount: u64,
    pool: PoolSnapshot,
    now: i64,
) -> (Vault, Result<u64, VaultError>) {
    match initiate_error(v, holder_balance, fraction_amount, pool) {
        Some(e) => (v, Err(e)),
        None => (
            initiated(v, initiator, fraction_amount, pool, now),
            Ok((holder_balance - fraction_amount) as u64),
        ),
    }
}

/// Starts a reclaim: `initiator`, who holds `holder_balance` fraction tokens,
/// locks `fraction_amount` of them in escrow, and the compensation for the
/// other holders is priced at the pool's TWAP and locked. Returns the
/// initiator's balance left outside escrow. The balance is the fraction-token
/// ledger's, so it never exceeds the supply, and the host's clock never reads
/// earlier than the vault's creation.
pub fn initiate_reclaim(
    vault: &mut Vault,
    initiator: Key,
    holder_balance: u64,
    fraction_amount: u64,
    pool: &PoolSnapshot,
    now: i64,
) -> (r: Result<u64, VaultError>)
    requires
        old(vault).wf(),
        holder_balance <= old(vault).total_supply,
        now >= old(vault).creation_timestamp,
    ensures
        (*final(vault), r) == initiate_outcome(
            *old(vault),
            initiator,
            holder_balance,
            fraction_amount,
            *pool,
            now,
        ),
        final(vault).wf(),
        final(vault).same_config(*old(vault)),
        old(vault).status != VaultStatus::Active ==> r == Err::<u64, VaultError>(
            VaultError::InvalidState,
        ),
        r is Err ==> *final(vault) == *old(vault),
        r matches Ok(rest) ==> {
            &&& old(vault).status == VaultStatus::Active
            &&& final(vault).status == VaultStatus::ReclaimInitiated
            &&& final(vault).tokens_in_escrow + rest == holder_balance
            &&& final(vault).total_compensation == final(vault).remaining_compensation
            &&& final(vault).total_compensation == compensation_owed(
                old(vault).total_supply,
                fraction_amount,
                pool.twap_price,
            )
        },
{
    if vault.status != VaultStatus::Active {
        return Err(VaultError::InvalidState);
    }
    match is_eligible(vault, pool, holder_balance) {
        Err(IneligibilityReason::HoldingTooLow) => {
            return Err(VaultError::InsufficientHolding);
        },
        Err(_) => {
            return Err(VaultError::NotEligible);
        },
        Ok(()) => {},
    }
    if fraction_amount > holder_balance || !meets_required_holding(vault, fraction_amount) {
        return Err(VaultError::InsufficientHolding);
    }
    let owed = match compute_total_compensation(vault.total_supply, fraction_amount, pool.twap_price) {
        Some(c) => c,
        None => {
            return Err(VaultError::CompensationOverflow);
        },
    };
    vault.status = VaultStatus::ReclaimInitiated;
    vault.reclaim_initiator = initiator;
    vault.reclaim_initiation_timestamp = now;
    vault.tokens_in_escrow = fraction_amount;
    vault.twap_price_at_reclaim = pool.twap_price;
    vault.total_compensation = owed;
    vault.remaining_compensation = owed;
    Ok(holder_balance - fraction_amount)
}

// ---- finalisation ----

/// Why a finalisation may not go ahead, before any transfer is attempted.
pub open spec fn finalize_blocker(v: Vault, escrow_window_seconds: i64, now: i64) -> Option<VaultError> {
    if v.status != VaultStatus::ReclaimInitiated {
        Some(VaultError::InvalidState)
    } else if !has_elapsed(v.reclaim_initiation_timestamp, escrow_window_seconds, now) {
        Some(VaultError::EscrowWindowOpen)
    } else {
        None
    }
}

/// Checks, without changing anything, that a finalisation may go ahead: the
/// reclaim is initiated and the escrow window of `escrow_window_seconds` (a
/// deployment setting; zero once confirmed) has elapsed. The asset is to be
/// transferred out only after this passes.
pub fn finalize_precondition(vault: &Vault, escrow_window_seconds: i64, now: i64) -> (r: Result<(), VaultError>)
    ensures
        r is Ok <==> finalize_blocker(*vault, escrow_window_seconds, now) is None,
        r matches Err(e) ==> finalize_blocker(*vault, escrow_window_seconds, now) == Some(e),
{
    if vault.status != VaultStatus::ReclaimInitiated {
        Err(VaultError::InvalidState)
    } else if !elapsed(vault.reclaim_initiation_timestamp, escrow_window_seconds, now) {
        Err(VaultError::EscrowWindowOpen)
    } else {
        Ok(())
    }
}

/// The vault and the result after a finalisation; `asset_transferred` is
/// whether the delegated transfer of the asset to the initiator succeeded.
pub open spec fn finalize_outcome(
    v: Vault,
    escrow_window_seconds: i64,
    asset_transferred: bool,
    now: i64,
) -> (Vault, Result<(), VaultError>) {
    match finalize_blocker(v, escrow_window_seconds, now) {
        Some(e) => (v, Err(e)),
        None => if !asset_transferred {
            (v, Err(VaultError::AssetTransferFailed))
        } else {
            (Vault { status: VaultStatus::ReclaimedFinalized, reclaim_timestamp: now, ..v }, Ok(()))
        },
    }
}

/// Completes a reclaim once the asset has gone out to the initiator: the
/// escrowed fraction tokens are then to be burned, and the compensation stays
/// locked for disbursement. A failed transfer commits nothing.
pub fn finalize_reclaim(
    vault: &mut Vault,
    escrow_window_seconds: i64,
    asset_transferred: bool,
    now: i64,
) -> (r: Result<(), VaultError>)
    requires
        old(vault).wf(),
    ensures
        (*final(vault), r) == finalize_outcome(
            *old(vault),
            escrow_window_seconds,
            asset_transferred,
            now,
        ),
        final(vault).wf(),
        final(vault).same_config(*old(vault)),
        old(vault).status != VaultStatus::ReclaimInitiated ==> r == Err::<(), VaultError>(
            VaultError::InvalidState,
        ),
        r is Err ==> *final(vault) == *old(vault),
        r is Ok ==> {
            &&& final(vault).status == VaultStatus::ReclaimedFinalized
            &&& final(vault).reclaim_timestamp == now
            &&& final(vault).remaining_compensation == old(vault).remaining_compensation
            &&& final(vault).tokens_in_escrow == old(vault).tokens_in_escrow
        },
{
    match finalize_precondition(vault, escrow_window_seconds, now) {
        Err(e) => {
            return Err(e);
        },
        Ok(()) => {},
    }
    if !asset_transferred {
        return Err(VaultError::AssetTransferFailed);
    }
    vault.status = VaultStatus::ReclaimedFinalized;
    vault.reclaim_timestamp = now;
    Ok(())
}

// ---- cancellation and expiry ----

/// The initiator may cancel at any time; anyone may once `expiry_seconds`
/// have passed since initiation.
pub open spec fn may_cancel(v: Vault, caller: Key, expiry_seconds: i64, now: i64) -> bool {
    caller == v.reclaim_initiator || has_elapsed(v.reclaim_initiation_timestamp, expiry_seconds, now)
}

/// The vault with its escrow working state cleared and back to active.
pub open spec fn cancelled(v: Vault) -> Vault {
    Vault {
        status: VaultStatus::Active,
        reclaim_initiator: spec_unset_key(),
        reclaim_initiation_timestamp: 0,
        tokens_in_escrow: 0,
        twap_price_at_reclaim: 0,
        total_compensation: 0,
        remaining_compensation: 0,
        ..v
    }
}

/// The vault and the result after a cancellation; on success the result is
/// the number of fraction tokens to release back to the initiator.
pub open spec fn cancel_outcome(v: Vault, caller: Key, expiry_seconds: i64, now: i64) -> (
    Vault,
    Result<u64, VaultError>,
) {
    if v.status != VaultStatus::ReclaimInitiated {
        (v, Err(VaultError::InvalidState))
    } else if !may_cancel(v, caller, expiry_seconds, now) {
        (v, Err(VaultError::CancelNotAllowed))
    } else {
        (cancelled(v), Ok(v.tokens_in_escrow))
    }
}

/// Abandons an initiated reclaim, by the initiator's choice or because
/// `expiry_seconds` (a deployment setting) have passed without finalisation:
/// the escrow state is cleared and the vault is active again. Returns the
/// escrowed amount, to be unlocked for the initiator.
pub fn cancel_or_expire_reclaim(vault: &mut Vault, caller: Key, expiry_seconds: i64, now: i64) -> (r:
    Result<u64, VaultError>)
    requires
        old(vault).wf(),
    ensures
        (*final(vault), r) == cancel_outcome(*old(vault), caller, expiry_seconds, now),
        final(vault).wf(),
        final(vault).same_config(*old(vault)),
        old(vault).status != VaultStatus::ReclaimInitiated ==> r == Err::<u64, VaultError>(
            VaultError::InvalidState,
        ),
        r is Err ==> *final(vault) == *old(vault),
        r matches Ok(released) ==> {
            &&& released == old(vault).tokens_in_escrow
            &&& final(vault).status == VaultStatus::Active
            &&& final(vault).escrow_unset()
        },
{
    if vault.status != VaultStatus::ReclaimInitiated {
        return Err(VaultError::InvalidState);
    }
    if !keys_equal(&caller, &vault.reclaim_initiator) && !elapsed(
        vault.reclaim_initiation_timestamp,
        expiry_seconds,
        now,
    ) {
        return Err(VaultError::CancelNotAllowed);
    }
    let released = vault.tokens_in_escrow;
    vault.status = VaultStatus::Active;
    vault.reclaim_initiator = unset_key();
    vault.reclaim_initiation_timestamp = 0;
    vault.tokens_in_escrow = 0;
    vault.twap_price_at_reclaim = 0;
    vault.total_compensation = 0;
    vault.remaining_compensation = 0;
    Ok(released)
}

// ---- closing ----

/// The vault and the result after closing.
pub open spec fn close_outcome(v: Vault) -> (Vault, Result<(), VaultError>) {
    if v.status == VaultStatus::ReclaimedFinalized && v.remaining_compensation == 0 {
        (Vault { status: VaultStatus::Closed, ..v }, Ok(()))
    } else {
        (v, Err(VaultError::InvalidState))
    }
}

/// Closes a finalised vault once all compensation has been paid out. Closed
/// is terminal: every operation on a closed vault is refused.
pub fn close(vault: &mut Vault) -> (r: Result<(), VaultError>)
    requires
        old(vault).wf(),
    ensures
        (*final(vault), r) == close_outcome(*old(vault)),
        final(vault).wf(),
        final(vault).same_config(*old(vault)),
        r is Ok <==> old(vault).status == VaultStatus::ReclaimedFinalized
            && old(vault).remaining_compensation == 0,
        r is Err ==> r == Err::<(), VaultError>(VaultError::InvalidState) && *final(vault)
            == *old(vault),
        r is Ok ==> final(vault).status == VaultStatus::Closed,
{
    if vault.status != VaultStatus::ReclaimedFinalized || vault.remaining_compensation != 0 {
        return Err(VaultError::InvalidState);
    }
    vault.status = VaultStatus::Closed;
    Ok(())
}

} // verus!
