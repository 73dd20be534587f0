use vstd::prelude::*;

verus! {

/// A 32-byte account identifier; all zeros means "not set".
pub type Key = [u8; 32];

pub open spec fn is_unset_key(k: Key) -> bool {
    forall|i: int| 0 <= i < 32 ==> k@[i] == 0u8
}

/// The identifier that stands for "nobody".
pub open spec fn spec_unset_key() -> Key {
    vstd::array::spec_array_fill_for_copy_type::<u8, 32>(0u8)
}

/// The identifier that stands for "nobody".
pub fn unset_key() -> (r: Key)
    ensures
        r == spec_unset_key(),
        is_unset_key(r),
{
    [0u8; 32]
}

pub const DEFAULT_MIN_RECLAIM_PERCENTAGE: u8 = 80;

pub const DEFAULT_MIN_LIQUIDITY_PERCENT: u8 = 5;

pub const DEFAULT_MIN_VOLUME_PERCENT_30D: u8 = 10;

/// Lifecycle of a vault.
#[derive(Clone, Copy, Debug, PartialEq, Eq, Structural)]
pub enum VaultStatus {
    /// Fractionalised and tradeable.
    Active,
    /// Escrow period running: fraction tokens locked, compensation priced.
    ReclaimInitiated,
    /// Asset transferred out, escrowed tokens burned, compensation being paid.
    ReclaimedFinalized,
    /// Terminal; kept for audit.
    Closed,
}

impl VaultStatus {
    /// The status's name, as shown to people.
    pub fn name(&self) -> (r: &'static str)
        ensures
            r@ == status_name(*self),
    {
        match self {
            VaultStatus::Active => "Active",
            VaultStatus::ReclaimInitiated => "ReclaimInitiated",
            VaultStatus::ReclaimedFinalized => "ReclaimedFinalized",
            VaultStatus::Closed => "Closed",
        }
    }
}

pub open spec fn status_name(s: VaultStatus) -> Seq<char> {
    match s {
        VaultStatus::Active => "Active"@,
        VaultStatus::ReclaimInitiated => "ReclaimInitiated"@,
        VaultStatus::ReclaimedFinalized => "ReclaimedFinalized"@,
        VaultStatus::Closed => "Closed"@,
    }
}

/// The edges of the lifecycle: forward through initiation, finalisation and
/// closing, and back from an initiated reclaim to active on cancellation.
pub open spec fn is_legal_edge(from: VaultStatus, to: VaultStatus) -> bool {
    ||| from == VaultStatus::Active && to == VaultStatus::ReclaimInitiated
    ||| from == VaultStatus::ReclaimInitiated && to == VaultStatus::ReclaimedFinalized
    ||| from == VaultStatus::ReclaimInitiated && to == VaultStatus::Active
    ||| from == VaultStatus::ReclaimedFinalized && to == VaultStatus::Closed
}

/// One vault per fractionalised asset. The pool address is deliberately not
/// stored: callers supply it when the asset is transferred out.
#[derive(Clone, Copy, Debug, PartialEq, Eq)]
pub struct Vault {
    pub nft_mint: Key,
    pub nft_asset_id: Key,
    pub fraction_mint: Key,
    pub total_supply: u64,
    pub creator: Key,
    pub creation_timestamp: i64,
    pub status: VaultStatus,
    pub reclaim_timestamp: i64,
    pub twap_price_at_reclaim: u64,
    pub total_compensation: u64,
    pub remaining_compensation: u64,
    pub bump: u8,
    pub min_lp_age_seconds: i64,
    pub min_reclaim_percentage: u8,
    pub min_liquidity_percent: u8,
    pub min_volume_percent_30d: u8,
    pub reclaim_initiator: Key,
    pub reclaim_initiation_timestamp: i64,
    pub tokens_in_escrow: u64,
}

impl Vault {
    /// Bytes of the flat record: five identifiers, nine amounts or
    /// timestamps, and five one-byte fields.
    pub const INIT_SPACE: usize = 32 + 32 + 32 + 8 + 32 + 8 + 1 + 8 + 8 + 8 + 8 + 1 + 8 + 1 + 1 + 1 + 32 + 8 + 8;

    /// The escrow working state is all unset.
    pub open spec fn escrow_unset(&self) -> bool {
        &&& self.reclaim_initiator == spec_unset_key()
        &&& self.reclaim_initiation_timestamp == 0
        &&& self.tokens_in_escrow == 0
        &&& self.twap_price_at_reclaim == 0
        &&& self.total_compensation == 0
        &&& self.remaining_compensation == 0
    }

    /// What holds of a vault at every observation point.
    pub open spec fn wf(&self) -> bool {
        &&& self.tokens_in_escrow <= self.total_supply
        &&& self.remaining_compensation <= self.total_compensation
        &&& self.status == VaultStatus::Active ==> self.escrow_unset() && self.reclaim_timestamp == 0
        &&& self.status == VaultStatus::ReclaimInitiated ==> {
            &&& self.reclaim_timestamp == 0
            &&& self.reclaim_initiation_timestamp >= self.creation_timestamp
        }
        &&& (self.status == VaultStatus::ReclaimedFinalized || self.status == VaultStatus::Closed)
            ==> {
            &&& self.reclaim_initiation_timestamp >= self.creation_timestamp
            &&& self.reclaim_timestamp >= self.reclaim_initiation_timestamp
        }
        &&& self.status == VaultStatus::Closed ==> self.remaining_compensation == 0
    }

    /// The identity, supply and threshold fields, which never change after
    /// creation.
    pub open spec fn same_config(&self, other: Vault) -> bool {
        &&& self.nft_mint == other.nft_mint
        &&& self.nft_asset_id == other.nft_asset_id
        &&& self.fraction_mint == other.fraction_mint
        &&& self.total_supply == other.total_supply
        &&& self.creator == other.creator
        &&& self.creation_timestamp == other.creation_timestamp
        &&& self.bump == other.bump
        &&& self.min_lp_age_seconds == other.min_lp_age_seconds
        &&& self.min_reclaim_percentage == other.min_reclaim_percentage
        &&& self.min_liquidity_percent == other.min_liquidity_percent
        &&& self.min_volume_percent_30d == other.min_volume_percent_30d
    }

    /// A freshly fractionalised vault: active, with no escrow state.
    pub fn new(
        nft_mint: Key,
        nft_asset_id: Key,
        fraction_mint: Key,
        total_supply: u64,
        creator: Key,
        creation_timestamp: i64,
        bump: u8,
        min_lp_age_seconds: i64,
        min_reclaim_percentage: u8,
        min_liquidity_percent: u8,
        min_volume_percent_30d: u8,
    ) -> (v: Vault)
        ensures
            v.wf(),
            v.status == VaultStatus::Active,
            v.escrow_unset(),
            v.reclaim_timestamp == 0,
            v.nft_mint == nft_mint,
            v.nft_asset_id == nft_asset_id,
            v.fraction_mint == fraction_mint,
            v.total_supply == total_supply,
            v.creator == creator,
            v.creation_timestamp == creation_timestamp,
            v.bump == bump,
            v.min_lp_age_seconds == min_lp_age_seconds,
            v.min_reclaim_percentage == min_reclaim_percentage,
            v.min_liquidity_percent == min_liquidity_percent,
            v.min_volume_percent_30d == min_volume_percent_30d,
    {
        Vault {
            nft_mint,
            nft_asset_id,
            fraction_mint,
            total_supply,
            creator,
            creation_timestamp,
            status: VaultStatus::Active,
            reclaim_timestamp: 0,
            twap_price_at_reclaim: 0,
            total_compensation: 0,
            remaining_compensation: 0,
            bump,
            min_lp_age_seconds,
            min_reclaim_percentage,
            min_liquidity_percent,
            min_volume_percent_30d,
            reclaim_initiator: unset_key(),
            reclaim_initiation_timestamp: 0,
            tokens_in_escrow: 0,
        }
    }
}

} // verus!
