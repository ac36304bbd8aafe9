//! Custodial programs over a ledger: deterministic custodial addresses,
//! delegated authority, a single-owner vault and a two-party escrow swap.

pub mod address;
pub mod engine;
pub mod error;
pub mod vault;
pub mod vault_laws;
pub mod escrow;
pub mod escrow_laws;
pub mod layout;
pub mod records;
