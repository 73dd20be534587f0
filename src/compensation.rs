use vstd::prelude::*;
use crate::error::VaultError;
use crate::vault::{Vault, VaultStatus};

verus! {

/// Compensation owed to the holders outside escrow: every unit not escrowed,
/// at the snapshot price. A product of integers, so nothing is rounded.
pub open spec fn compensation_owed(total_supply: u64, tokens_in_escrow: u64, twap_price: u64) -> int {
    (total_supply - tokens_in_escrow) * twap_price
}

/// Computes `compensation_owed`, or `None` where it does not fit in `u64`.
pub fn compute_total_compensation(total_supply: u64, tokens_in_escrow: u64, twap_price: u64) -> (r:
    Option<u64>)
    requires
        tokens_in_escrow <= total_supply,
    ensures
        r is Some <==> compensation_owed(total_supply, tokens_in_escrow, twap_price) <= u64::MAX,
        r matches Some(c) ==> c == compensation_owed(total_supply, tokens_in_escrow, twap_price),
{
    let units: u64 = total_supply - tokens_in_escrow;
    units.checked_mul(twap_price)
}

/// What a holder of `holder_fraction_amount` fraction tokens is paid.
pub open spec fn payment(v: Vault, holder_fraction_amount: u64) -> int {
    holder_fraction_amount * v.twap_price_at_reclaim
}

/// The vault and the result after a disbursement.
pub open spec fn disburse_outcome(v: Vault, holder_fraction_amount: u64) -> (Vault, Result<u64, VaultError>) {
    let paid = payment(v, holder_fraction_amount);
    if v.status != VaultStatus::ReclaimedFinalized {
        (v, Err(VaultError::InvalidState))
    } else if paid > v.remaining_compensation {
        (v, Err(VaultError::InsufficientEscrow))
    } else {
        (
            Vault { remaining_compensation: (v.remaining_compensation - paid) as u64, ..v },
            Ok(paid as u64),
        )
    }
}

proof fn lemma_u64_product_fits_u128(a: u64, b: u64)
    ensures
        a * b <= u128::MAX,
{
    assert(a * b <= 0xffff_ffff_ffff_ffff * 0xffff_ffff_ffff_ffff) by (nonlinear_arith)
        requires
            a <= 0xffff_ffff_ffff_ffff,
            b <= 0xffff_ffff_ffff_ffff,
    ;
}

/// Pays a holder of `holder_fraction_amount` fraction tokens from the
/// remaining compensation, at the price snapshot taken at initiation. Pays the
/// whole amount or nothing: a request beyond what is left is refused, so a
/// failed call can be retried without skewing the accounts.
pub fn disburse(vault: &mut Vault, holder_fraction_amount: u64) -> (r: Result<u64, VaultError>)
    requires
        old(vault).wf(),
    ensures
        (*final(vault), r) == disburse_outcome(*old(vault), holder_fraction_amount),
        final(vault).wf(),
        old(vault).status != VaultStatus::ReclaimedFinalized ==> r == Err::<u64, VaultError>(
            VaultError::InvalidState,
        ),
        r is Err ==> *final(vault) == *old(vault),
        r matches Ok(paid) ==> {
            &&& paid == payment(*old(vault), holder_fraction_amount)
            &&& final(vault).remaining_compensation == old(vault).remaining_compensation - paid
        },
{
    if vault.status != VaultStatus::ReclaimedFinalized {
        return Err(VaultError::InvalidState);
    }
    proof {
        lemma_u64_product_fits_u128(holder_fraction_amount, vault.twap_price_at_reclaim);
    }
    let paid: u128 = (holder_fraction_amount as u128) * (vault.twap_price_at_reclaim as u128);
    if paid > vault.remaining_compensation as u128 {
        return Err(VaultError::InsufficientEscrow);
    }
    let paid = paid as u64;
    vault.remaining_compensation = vault.remaining_compensation - paid;
    Ok(paid)
}

} // verus!
