use vstd::prelude::*;

verus! {

/// Why a controller operation was refused. Every refusal leaves the vault as
/// it was.
#[derive(Clone, Copy, Debug, PartialEq, Eq, Structural)]
pub enum VaultError {
    /// The vault is not in the status the operation starts from.
    InvalidState,
    /// A pool threshold (age, liquidity or volume) is not met.
    NotEligible,
    /// The caller does not hold, or does not present, the required share of
    /// the supply.
    InsufficientHolding,
    /// The delegated transfer of the asset failed.
    AssetTransferFailed,
    /// A disbursement asks for more than the compensation that is left.
    InsufficientEscrow,
    /// The escrow confirmation window has not elapsed yet.
    EscrowWindowOpen,
    /// Someone other than the initiator cancels before the expiry timeout.
    CancelNotAllowed,
    /// The compensation owed does not fit in a 64-bit amount.
    CompensationOverflow,
}

} // verus!
