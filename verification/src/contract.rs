//! The contract: the callable surface over metadata, ownership and ledger.

use vstd::prelude::*;
use crate::address::Address;
use crate::allowance::Allowance;
use crate::error::TokenError;
use crate::ledger::Ledger;
use crate::metadata::{MetadataStore, MetadataView};
use crate::ownership::OwnershipGate;
use crate::state::{performed, LedgerState};

verus! {

/// The number of decimal places of the asset.
pub const DECIMALS: u8 = 18;

/// The name of the asset.
pub const NAME: &'static str = "Carbon Drive";

/// The symbol of the asset.
pub const SYMBOL: &'static str = "CDRIVE";

/// The record that construction writes: 18 decimals, "Carbon Drive", "CDRIVE".
pub open spec fn asset_metadata() -> MetadataView {
    MetadataView { decimals: DECIMALS, name: NAME@, symbol: SYMBOL@ }
}

/// The state of the contract as a mathematical value.
pub struct ContractState {
    pub metadata: Option<MetadataView>,
    pub owner: Option<Address>,
    pub ledger: LedgerState,
}

impl ContractState {
    /// The contract was constructed.
    pub open spec fn constructed(self) -> bool {
        self.owner is Some
    }

    /// What holds of the contract at all times: the ledger is valid; metadata and owner
    /// are present exactly from construction on; the metadata is the asset's own.
    pub open spec fn valid(self) -> bool {
        &&& self.ledger.valid()
        &&& self.metadata is Some <==> self.owner is Some
        &&& self.metadata is Some ==> self.metadata == Some(asset_metadata())
    }
}

/// The Carbon Drive contract: a fungible asset that only its owner can issue.
///
/// A value starts out deployed and not constructed; `construct` names the owner, once.
/// Each call runs to its end before the next begins, and a refused call changes nothing.
pub struct CarbonDrive {
    metadata: MetadataStore,
    ownership: OwnershipGate,
    ledger: Ledger,
}

impl View for CarbonDrive {
    type V = ContractState;

    closed spec fn view(&self) -> ContractState {
        ContractState { metadata: self.metadata@, owner: self.ownership@, ledger: self.ledger@ }
    }
}

impl CarbonDrive {
    /// The contract is well formed: its ledger is, and its state is valid.
    pub closed spec fn wf(&self) -> bool {
        &&& self.ledger.wf()
        &&& self@.valid()
    }

    /// What well-formedness says of the state.
    pub proof fn lemma_wf_state_is_valid(&self)
        requires
            self.wf(),
        ensures
            self@.valid(),
    {
    }

    /// The contract as deployed: not constructed, with an empty ledger.
    pub fn new() -> (contract: CarbonDrive)
        ensures
            contract.wf(),
            contract@ == (ContractState {
                metadata: None,
                owner: None,
                ledger: LedgerState::empty(),
            }),
    {
        let ledger = Ledger::new();
        proof {
            ledger.lemma_wf_state_is_valid();
        }
        CarbonDrive { metadata: MetadataStore::new(), ownership: OwnershipGate::new(), ledger }
    }

    /// Constructs the contract: writes the asset's metadata and makes `owner` the owner.
    ///
    /// Only the first call does; every later one is refused with `AlreadyInitialized`.
    pub fn construct(&mut self, owner: Address) -> (r: Result<(), TokenError>)
        requires
            old(self).wf(),
        ensures
            final(self).wf(),
            old(self)@.constructed() ==> r == Err::<(), TokenError>(
                TokenError::AlreadyInitialized,
            ) && final(self)@ == old(self)@,
            !old(self)@.constructed() ==> r is Ok && final(self)@ == (ContractState {
                metadata: Some(asset_metadata()),
                owner: Some(owner),
                ledger: old(self)@.ledger,
            }),
    {
        if self.metadata.is_initialized() {
            return Err(TokenError::AlreadyInitialized);
        }
        match self.metadata.initialize(DECIMALS, NAME.to_owned(), SYMBOL.to_owned()) {
            Err(e) => Err(e),
            Ok(()) => self.ownership.set_owner(owner),
        }
    }

    /// Creates `amount` new units and credits them to `account`, on the owner's word.
    ///
    /// Any `caller` but the owner is refused with `Unauthorized`, and so is everyone
    /// before construction. The owner's call is refused with `InvalidAmount` unless
    /// `amount` is positive, and with `Overflow` where the balance or the total supply
    /// would leave the range of `i128`.
    pub fn mint(&mut self, caller: &Address, account: &Address, amount: i128) -> (r: Result<
        (),
        TokenError,
    >)
        requires
            old(self).wf(),
        ensures
            final(self).wf(),
            final(self)@.metadata == old(self)@.metadata,
            final(self)@.owner == old(self)@.owner,
            old(self)@.owner != Some(*caller) ==> r == Err::<(), TokenError>(
                TokenError::Unauthorized,
            ) && final(self)@ == old(self)@,
            old(self)@.owner == Some(*caller) ==> performed(
                r,
                old(self)@.ledger,
                final(self)@.ledger,
                old(self)@.ledger.mint(*account, amount),
            ),
    {
        match self.ownership.require_owner(caller) {
            Err(e) => Err(e),
            Ok(()) => {
                let r = self.ledger.mint(account, amount);
                proof {
                    self.ledger.lemma_wf_state_is_valid();
                }
                r
            },
        }
    }

    /// Destroys `amount` units that `account` holds. The caller has authenticated
    /// `account`.
    ///
    /// Refused with `InvalidAmount` unless `amount` is positive, and with
    /// `InsufficientBalance` where `account` holds less.
    pub fn burn(&mut self, account: &Address, amount: i128) -> (r: Result<(), TokenError>)
        requires
            old(self).wf(),
        ensures
            final(self).wf(),
            final(self)@.metadata == old(self)@.metadata,
            final(self)@.owner == old(self)@.owner,
            performed(
                r,
                old(self)@.ledger,
                final(self)@.ledger,
                old(self)@.ledger.burn(*account, amount),
            ),
    {
        let r = self.ledger.burn(account, amount);
        proof {
            self.ledger.lemma_wf_state_is_valid();
        }
        r
    }

    /// Moves `amount` units from `from` to `to`. The caller has authenticated `from`.
    ///
    /// Refused with `InvalidAmount` where `amount` is negative, with
    /// `InsufficientBalance` where `from` holds less, and with `Overflow` where what `to`
    /// would hold leaves the range of `i128`.
    pub fn transfer(&mut self, from: &Address, to: &Address, amount: i128) -> (r: Result<
        (),
        TokenError,
    >)
        requires
            old(self).wf(),
        ensures
            final(self).wf(),
            final(self)@.metadata == old(self)@.metadata,
            final(self)@.owner == old(self)@.owner,
            performed(
                r,
                old(self)@.ledger,
                final(self)@.ledger,
                old(self)@.ledger.transfer(*from, *to, amount),
            ),
    {
        let r = self.ledger.transfer(from, to, amount);
        proof {
            self.ledger.lemma_wf_state_is_valid();
        }
        r
    }

    /// Sets what `spender` may move on behalf of `owner` to `amount`, live until
    /// `expiration`. The caller has authenticated `owner`; `now` is the current ledger
    /// time.
    ///
    /// Refused with `InvalidAmount` where `amount` is negative, and with
    /// `InvalidExpiration` where `expiration` lies before `now`.
    pub fn approve(
        &mut self,
        owner: &Address,
        spender: &Address,
        amount: i128,
        expiration: u32,
        now: u32,
    ) -> (r: Result<(), TokenError>)
        requires
            old(self).wf(),
        ensures
            final(self).wf(),
            final(self)@.metadata == old(self)@.metadata,
            final(self)@.owner == old(self)@.owner,
            performed(
                r,
                old(self)@.ledger,
                final(self)@.ledger,
                old(self)@.ledger.approve(*owner, *spender, amount, expiration, now),
            ),
    {
        let r = self.ledger.approve(owner, spender, amount, expiration, now);
        proof {
            self.ledger.lemma_wf_state_is_valid();
        }
        r
    }

    /// Moves `amount` units from `from` to `to` on the allowance that `from` gave to
    /// `spender`, and deducts `amount` from that allowance. The caller has authenticated
    /// `spender`; `now` is the current ledger time.
    ///
    /// Refused with `InvalidAmount` where `amount` is negative; with
    /// `InsufficientAllowance` where the allowance that is live at `now` is less than
    /// `amount`; then as `transfer` is.
    pub fn transfer_from(
        &mut self,
        spender: &Address,
        from: &Address,
        to: &Address,
        amount: i128,
        now: u32,
    ) -> (r: Result<(), TokenError>)
        requires
            old(self).wf(),
        ensures
            final(self).wf(),
            final(self)@.metadata == old(self)@.metadata,
            final(self)@.owner == old(self)@.owner,
            performed(
                r,
                old(self)@.ledger,
                final(self)@.ledger,
                old(self)@.ledger.transfer_from(*spender, *from, *to, amount, now),
            ),
    {
        let r = self.ledger.transfer_from(spender, from, to, amount, now);
        proof {
            self.ledger.lemma_wf_state_is_valid();
        }
        r
    }

    /// What `account` holds; nothing if it never received anything.
    pub fn balance_of(&self, account: &Address) -> (balance: i128)
        requires
            self.wf(),
        ensures
            balance == self@.ledger.balance_of(*account),
            0 <= balance <= self@.ledger.total_supply,
    {
        self.ledger.balance_of(account)
    }

    /// The allowance of `spender` over the funds of `owner`: amount and expiration, as
    /// last set or spent; both zero for a pair that was never approved.
    pub fn allowance(&self, owner: &Address, spender: &Address) -> (allowance: Allowance)
        requires
            self.wf(),
        ensures
            allowance == self@.ledger.allowance(*owner, *spender),
            allowance.amount >= 0,
    {
        self.ledger.allowance(owner, spender)
    }

    /// How much is in circulation.
    pub fn total_supply(&self) -> (supply: i128)
        requires
            self.wf(),
        ensures
            supply == self@.ledger.total_supply,
            supply >= 0,
    {
        self.ledger.total_supply()
    }

    /// The owner; none before construction.
    pub fn owner(&self) -> (r: Option<Address>)
        ensures
            r == self@.owner,
    {
        self.ownership.owner()
    }

    /// The number of decimal places; none before construction.
    pub fn decimals(&self) -> (r: Option<u8>)
        ensures
            match self@.metadata {
                Some(m) => r == Some(m.decimals),
                None => r is None,
            },
    {
        self.metadata.decimals()
    }

    /// The asset's name; none before construction.
    pub fn name(&self) -> (r: Option<String>)
        ensures
            match self@.metadata {
                Some(m) => r is Some && r->Some_0@ == m.name,
                None => r is None,
            },
    {
        self.metadata.name()
    }

    /// The asset's symbol; none before construction.
    pub fn symbol(&self) -> (r: Option<String>)
        ensures
            match self@.metadata {
                Some(m) => r is Some && r->Some_0@ == m.symbol,
                None => r is None,
            },
    {
        self.metadata.symbol()
    }
}

} // verus!
