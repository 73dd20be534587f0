use vstd::prelude::*;
use crate::compensation::disburse_outcome;
use crate::error::VaultError;
use crate::escrow::{
    cancel_outcome,
    close_outcome,
    finalize_outcome,
    initiate_error,
    initiate_outcome,
    initiated,
};
use crate::threshold::PoolSnapshot;
use crate::vault::{Key, Vault, VaultStatus, is_legal_edge};

verus! {

/// An operation went from `before` to `after`: a refusal changed nothing at
/// all, and a success either kept the status or took one legal edge.
pub open spec fn follows_lifecycle<T>(before: Vault, after: Vault, r: Result<T, VaultError>) -> bool {
    &&& r is Err ==> after == before
    &&& r is Ok ==> after.status == before.status || is_legal_edge(before.status, after.status)
}

/// Every operation, on any vault and any inputs, moves the status only along
/// the lifecycle's edges (active to initiated, initiated to finalised or back
/// to active, finalised to closed), and one attempted from any other status is
/// refused with `InvalidState` and leaves the whole record as it was.
pub proof fn lemma_status_follows_edges(
    v: Vault,
    initiator: Key,
    holder_balance: u64,
    fraction_amount: u64,
    pool: PoolSnapshot,
    escrow_window_seconds: i64,
    asset_transferred: bool,
    caller: Key,
    expiry_seconds: i64,
    holder_fraction_amount: u64,
    now: i64,
)
    ensures
        ({
            let (after, r) = initiate_outcome(v, initiator, holder_balance, fraction_amount, pool, now);
            &&& follows_lifecycle(v, after, r)
            &&& v.status != VaultStatus::Active ==> r == Err::<u64, VaultError>(VaultError::InvalidState)
        }),
        ({
            let (after, r) = finalize_outcome(v, escrow_window_seconds, asset_transferred, now);
            &&& follows_lifecycle(v, after, r)
            &&& v.status != VaultStatus::ReclaimInitiated ==> r == Err::<(), VaultError>(
                VaultError::InvalidState,
            )
        }),
        ({
            let (after, r) = cancel_outcome(v, caller, expiry_seconds, now);
            &&& follows_lifecycle(v, after, r)
            &&& v.status != VaultStatus::ReclaimInitiated ==> r == Err::<u64, VaultError>(
                VaultError::InvalidState,
            )
        }),
        ({
            let (after, r) = close_outcome(v);
            &&& follows_lifecycle(v, after, r)
            &&& v.status != VaultStatus::ReclaimedFinalized ==> r == Err::<(), VaultError>(
                VaultError::InvalidState,
            )
        }),
        ({
            let (after, r) = disburse_outcome(v, holder_fraction_amount);
            &&& follows_lifecycle(v, after, r)
            &&& after.status == v.status
            &&& v.status != VaultStatus::ReclaimedFinalized ==> r == Err::<u64, VaultError>(
                VaultError::InvalidState,
            )
        }),
{
}

/// Initiating a reclaim on an active vault and at once cancelling it, as the
/// initiator, gives back exactly the vault as it was before, and releases the
/// whole escrowed amount.
pub proof fn lemma_cancel_undoes_initiate(
    v: Vault,
    initiator: Key,
    holder_balance: u64,
    fraction_amount: u64,
    pool: PoolSnapshot,
    now: i64,
    expiry_seconds: i64,
)
    requires
        v.wf(),
        initiate_error(v, holder_balance, fraction_amount, pool) is None,
    ensures
        cancel_outcome(initiated(v, initiator, fraction_amount, pool, now), initiator, expiry_seconds, now)
            == (v, Ok::<u64, VaultError>(fraction_amount)),
{
    let (w, r) = cancel_outcome(
        initiated(v, initiator, fraction_amount, pool, now),
        initiator,
        expiry_seconds,
        now,
    );
    assert(w == v);
}

/// Of two initiations on one vault, applied one after the other as the host
/// serialises them, at most one commits: once the first has succeeded, the
/// second is refused with `InvalidState` and changes nothing.
pub proof fn lemma_one_initiation_commits(
    v: Vault,
    initiator1: Key,
    holder_balance1: u64,
    fraction_amount1: u64,
    pool1: PoolSnapshot,
    now1: i64,
    initiator2: Key,
    holder_balance2: u64,
    fraction_amount2: u64,
    pool2: PoolSnapshot,
    now2: i64,
)
    requires
        initiate_outcome(v, initiator1, holder_balance1, fraction_amount1, pool1, now1).1 is Ok,
    ensures
        ({
            let first = initiate_outcome(v, initiator1, holder_balance1, fraction_amount1, pool1, now1).0;
            initiate_outcome(first, initiator2, holder_balance2, fraction_amount2, pool2, now2) == (
                first,
                Err::<u64, VaultError>(VaultError::InvalidState),
            )
        }),
{
}

} // verus!
