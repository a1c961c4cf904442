//! The single administrator of the contract, and the check that admits only it.

use vstd::prelude::*;
use crate::address::Address;
use crate::error::TokenError;

verus! {

/// Holds the owner. It starts without one, takes one once, and keeps it: its state
/// `self@` is `None` before and `Some(owner)` after.
pub struct OwnershipGate {
    owner: Option<Address>,
}

impl View for OwnershipGate {
    type V = Option<Address>;

    closed spec fn view(&self) -> Option<Address> {
        self.owner
    }
}

impl OwnershipGate {
    /// An ownership gate in which no owner is set yet.
    pub fn new() -> (gate: OwnershipGate)
        ensures
            gate@ is None,
    {
        OwnershipGate { owner: None }
    }

    /// The owner, if one is set.
    pub fn owner(&self) -> (r: Option<Address>)
        ensures
            r == self@,
    {
        self.owner
    }

    /// Makes `owner` the owner. Only the first call does; every later one is refused
    /// with `OwnerAlreadySet` and leaves the owner as it is.
    pub fn set_owner(&mut self, owner: Address) -> (r: Result<(), TokenError>)
        ensures
            old(self)@ is Some ==> r == Err::<(), TokenError>(TokenError::OwnerAlreadySet)
                && final(self)@ == old(self)@,
            old(self)@ is None ==> r is Ok && final(self)@ == Some(owner),
    {
        if self.owner.is_some() {
            return Err(TokenError::OwnerAlreadySet);
        }
        self.owner = Some(owner);
        Ok(())
    }

    /// Admits `caller` if it is the owner, and refuses everyone else with
    /// `Unauthorized`; while no owner is set, everyone is refused.
    pub fn require_owner(&self, caller: &Address) -> (r: Result<(), TokenError>)
        ensures
            self@ == Some(*caller) ==> r is Ok,
            self@ != Some(*caller) ==> r == Err::<(), TokenError>(TokenError::Unauthorized),
    {
        match &self.owner {
            Some(owner) => {
                if owner.same(caller) {
                    Ok(())
                } else {
                    Err(TokenError::Unauthorized)
                }
            },
            None => Err(TokenError::Unauthorized),
        }
    }
}

} // verus!
