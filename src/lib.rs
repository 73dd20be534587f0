//! Custody of a fractionalised collectible: the vault record, its reclaim
//! lifecycle and the compensation owed to the remaining fraction holders.
pub mod compensation;
pub mod error;
pub mod escrow;
pub mod laws;
pub mod threshold;
pub mod vault;
