//! The ledger as a mathematical object: its state, its transitions, and what every
//! reachable state satisfies.

use vstd::prelude::*;
use crate::address::Address;
use crate::allowance::Allowance;
use crate::error::TokenError;

verus! {

/// The sum of the balances of the listed accounts.
pub open spec fn sum_of_balances(balances: Map<Address, int>, accounts: Seq<Address>) -> int
    decreases accounts.len(),
{
    if accounts.len() == 0 {
        0
    } else {
        sum_of_balances(balances, accounts.drop_last()) + balances[accounts.last()]
    }
}

/// `balances` with the balance of `account` set to `value`.
pub open spec fn with_balance(balances: Map<Address, int>, account: Address, value: int) -> Map<
    Address,
    int,
> {
    Map::total(
        |a: Address|
            if a == account {
                value
            } else {
                balances[a]
            },
    )
}

/// `allowances` with the allowance of `spender` over the funds of `owner` set to `value`.
pub open spec fn with_allowance(
    allowances: Map<(Address, Address), Allowance>,
    owner: Address,
    spender: Address,
    value: Allowance,
) -> Map<(Address, Address), Allowance> {
    Map::total(
        |k: (Address, Address)|
            if k == (owner, spender) {
                value
            } else {
                allowances[k]
            },
    )
}

/// The state of the ledger: what each account holds, what each spender may move for
/// each holder, and how much is in circulation. An account that never received anything
/// holds zero; a pair that was never approved has the allowance zero, expired at zero.
pub struct LedgerState {
    pub balances: Map<Address, int>,
    pub allowances: Map<(Address, Address), Allowance>,
    pub total_supply: int,
}

/// A call that changes the ledger.
pub enum Operation {
    Mint { account: Address, amount: i128 },
    Burn { account: Address, amount: i128 },
    Transfer { from: Address, to: Address, amount: i128 },
    Approve { owner: Address, spender: Address, amount: i128, expiration: u32, now: u32 },
    TransferFrom { spender: Address, from: Address, to: Address, amount: i128, now: u32 },
}

impl LedgerState {
    /// The ledger on which nothing was ever minted or approved.
    pub open spec fn empty() -> LedgerState {
        LedgerState {
            balances: Map::total(|a: Address| 0int),
            allowances: Map::total(|k: (Address, Address)| Allowance { amount: 0, expiration: 0 }),
            total_supply: 0,
        }
    }

    /// What `account` holds.
    pub open spec fn balance_of(self, account: Address) -> int {
        self.balances[account]
    }

    /// What `spender` may move on behalf of `owner`, and until when.
    pub open spec fn allowance(self, owner: Address, spender: Address) -> Allowance {
        self.allowances[(owner, spender)]
    }

    /// `accounts` names every account with a non-zero balance, and none twice.
    pub open spec fn lists_all_holders(self, accounts: Seq<Address>) -> bool {
        &&& accounts.no_duplicates()
        &&& forall|a: Address|
            #![trigger self.balances[a]]
            #![trigger accounts.contains(a)]
            self.balances[a] != 0 ==> accounts.contains(a)
    }

    /// Conservation of supply: finitely many accounts hold anything, and what they hold
    /// adds up to the total supply.
    pub open spec fn conserved(self) -> bool {
        &&& exists|accounts: Seq<Address>| self.lists_all_holders(accounts)
        &&& forall|accounts: Seq<Address>| #[trigger]
            self.lists_all_holders(accounts) ==> sum_of_balances(self.balances, accounts)
                == self.total_supply
    }

    /// What holds of every state that the operations can reach from the empty ledger:
    /// both maps are total, no balance and no allowance is negative, the supply is
    /// conserved and fits `i128`.
    pub open spec fn valid(self) -> bool {
        &&& forall|a: Address| #[trigger] self.balances.contains_key(a)
        &&& forall|k: (Address, Address)| #[trigger] self.allowances.contains_key(k)
        &&& forall|a: Address| #[trigger] self.balances[a] >= 0
        &&& forall|k: (Address, Address)| #[trigger] self.allowances[k].amount >= 0
        &&& 0 <= self.total_supply <= i128::MAX
        &&& self.conserved()
    }

    /// The state in which `account` holds `delta` more and `delta` more is in circulation.
    pub open spec fn adjusted(self, account: Address, delta: int) -> LedgerState {
        LedgerState {
            balances: with_balance(self.balances, account, self.balances[account] + delta),
            allowances: self.allowances,
            total_supply: self.total_supply + delta,
        }
    }

    /// The state in which the allowance of `spender` over the funds of `owner` is `value`.
    pub open spec fn allowing(self, owner: Address, spender: Address, value: Allowance)
        -> LedgerState {
        LedgerState {
            balances: self.balances,
            allowances: with_allowance(self.allowances, owner, spender, value),
            total_supply: self.total_supply,
        }
    }

    /// Creating `amount` units for `account`.
    pub open spec fn mint(self, account: Address, amount: i128) -> Result<LedgerState, TokenError> {
        if amount <= 0 {
            Err(TokenError::InvalidAmount)
        } else if self.total_supply + amount > i128::MAX || self.balances[account] + amount
            > i128::MAX {
            Err(TokenError::Overflow)
        } else {
            Ok(self.adjusted(account, amount as int))
        }
    }

    /// Destroying `amount` units that `account` holds.
    pub open spec fn burn(self, account: Address, amount: i128) -> Result<LedgerState, TokenError> {
        if amount <= 0 {
            Err(TokenError::InvalidAmount)
        } else if self.balances[account] < amount {
            Err(TokenError::InsufficientBalance)
        } else {
            Ok(self.adjusted(account, -amount))
        }
    }

    /// Moving `amount` units from `from` to `to`.
    pub open spec fn transfer(self, from: Address, to: Address, amount: i128) -> Result<
        LedgerState,
        TokenError,
    > {
        if amount < 0 {
            Err(TokenError::InvalidAmount)
        } else if self.balances[from] < amount {
            Err(TokenError::InsufficientBalance)
        } else if from != to && self.balances[to] + amount > i128::MAX {
            Err(TokenError::Overflow)
        } else {
            Ok(self.adjusted(from, -amount).adjusted(to, amount as int))
        }
    }

    /// Setting the allowance of `spender` over the funds of `owner` at ledger time `now`.
    pub open spec fn approve(
        self,
        owner: Address,
        spender: Address,
        amount: i128,
        expiration: u32,
        now: u32,
    ) -> Result<LedgerState, TokenError> {
        match Allowance::granted(amount, expiration, now) {
            Ok(value) => Ok(self.allowing(owner, spender, value)),
            Err(e) => Err(e),
        }
    }

    /// Moving `amount` units from `from` to `to` on the allowance of `spender`, at ledger
    /// time `now`. The allowance is examined before the balance.
    pub open spec fn transfer_from(
        self,
        spender: Address,
        from: Address,
        to: Address,
        amount: i128,
        now: u32,
    ) -> Result<LedgerState, TokenError> {
        match self.allowances[(from, spender)].spent(amount, now) {
            Err(e) => Err(e),
            Ok(rest) => match self.transfer(from, to, amount) {
                Err(e) => Err(e),
                Ok(moved) => Ok(moved.allowing(from, spender, rest)),
            },
        }
    }

    /// What `op` returns in this state.
    pub open spec fn outcome(self, op: Operation) -> Result<LedgerState, TokenError> {
        match op {
            Operation::Mint { account, amount } => self.mint(account, amount),
            Operation::Burn { account, amount } => self.burn(account, amount),
            Operation::Transfer { from, to, amount } => self.transfer(from, to, amount),
            Operation::Approve { owner, spender, amount, expiration, now } => self.approve(
                owner,
                spender,
                amount,
                expiration,
                now,
            ),
            Operation::TransferFrom { spender, from, to, amount, now } => self.transfer_from(
                spender,
                from,
                to,
                amount,
                now,
            ),
        }
    }

    /// The state after `op`: a rejected call changes nothing.
    pub open spec fn after(self, op: Operation) -> LedgerState {
        match self.outcome(op) {
            Ok(next) => next,
            Err(_) => self,
        }
    }

    /// The state after the calls `ops`, made in order.
    pub open spec fn after_all(self, ops: Seq<Operation>) -> LedgerState
        decreases ops.len(),
    {
        if ops.len() == 0 {
            self
        } else {
            self.after_all(ops.drop_last()).after(ops.last())
        }
    }
}

/// Whether a call that returned `r` and led from `before` to `after` performed the
/// transition `outcome`: accepted with the state it names, or refused with its error and
/// the state left as it was.
pub open spec fn performed(
    r: Result<(), TokenError>,
    before: LedgerState,
    after: LedgerState,
    outcome: Result<LedgerState, TokenError>,
) -> bool {
    match outcome {
        Ok(next) => r is Ok && after == next,
        Err(e) => r == Err::<(), TokenError>(e) && after == before,
    }
}

} // verus!
