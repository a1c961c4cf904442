//! Carbon Drive: an owner-issued fungible asset ledger.
//!
//! One authority, the owner, may mint new units to any account. Any holder may burn
//! what it holds, transfer it, and let a spender move it within an allowance. The
//! ledger keeps the balances adding up to the total supply, through every call.

pub mod address;
pub mod allowance;
pub mod amounts;
pub mod contract;
pub mod error;
pub mod invariants;
pub mod ledger;
pub mod metadata;
pub mod ownership;
pub mod state;

pub use address::{Address, AddressKind};
pub use allowance::Allowance;
pub use contract::CarbonDrive;
pub use error::TokenError;
pub use ledger::Ledger;
pub use metadata::MetadataStore;
pub use ownership::OwnershipGate;
