//! The failure conditions of the ledger.

use vstd::prelude::*;

verus! {

/// Why a call was rejected. A rejected call leaves every part of the state as it was.
#[derive(Clone, Copy, Debug, PartialEq, Eq, Structural)]
pub enum TokenError {
    /// The metadata store was initialized before.
    AlreadyInitialized,
    /// The ownership gate already holds an owner.
    OwnerAlreadySet,
    /// The caller is not the owner, or no owner is set.
    Unauthorized,
    /// The account holds less than the amount asked for.
    InsufficientBalance,
    /// The live allowance is less than the amount asked for.
    InsufficientAllowance,
    /// The amount is outside what the operation accepts.
    InvalidAmount,
    /// The expiration lies before the current ledger time.
    InvalidExpiration,
    /// A balance or the total supply would leave the range of `i128`.
    Overflow,
}

} // verus!
