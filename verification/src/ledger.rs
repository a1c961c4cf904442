//! The ledger: balances, allowances and the total supply, with the operations on them.

use vstd::prelude::*;
use crate::address::Address;
use crate::allowance::Allowance;
use crate::amounts;
use crate::error::TokenError;
use crate::state::{performed, with_allowance, with_balance, LedgerState};

verus! {

/// What one account holds.
struct Account {
    id: Address,
    balance: i128,
}

/// What one spender may move for one holder.
struct Grant {
    owner: Address,
    spender: Address,
    allowance: Allowance,
}

/// The balance recorded for `account` in `entries`; nothing where it has no entry.
spec fn held(entries: Seq<Account>, account: Address) -> int {
    if exists|i: int| 0 <= i < entries.len() && entries[i].id == account {
        entries[choose|i: int| 0 <= i < entries.len() && entries[i].id == account].balance as int
    } else {
        0
    }
}

/// The allowance recorded for `spender` over the funds of `owner` in `entries`.
spec fn granted(entries: Seq<Grant>, owner: Address, spender: Address) -> Allowance {
    if exists|i: int|
        0 <= i < entries.len() && entries[i].owner == owner && entries[i].spender == spender {
        entries[choose|i: int|
            0 <= i < entries.len() && entries[i].owner == owner && entries[i].spender
                == spender].allowance
    } else {
        Allowance { amount: 0, expiration: 0 }
    }
}

/// No account has two entries.
spec fn one_entry_each(entries: Seq<Account>) -> bool {
    forall|i: int, j: int| 0 <= i < j < entries.len() ==> entries[i].id != entries[j].id
}

/// No pair of holder and spender has two entries.
spec fn one_grant_each(entries: Seq<Grant>) -> bool {
    forall|i: int, j: int|
        0 <= i < j < entries.len() ==> !(entries[i].owner == entries[j].owner
            && entries[i].spender == entries[j].spender)
}

proof fn lemma_held_at(entries: Seq<Account>, i: int)
    requires
        one_entry_each(entries),
        0 <= i < entries.len(),
    ensures
        held(entries, entries[i].id) == entries[i].balance,
{
}

proof fn lemma_granted_at(entries: Seq<Grant>, i: int)
    requires
        one_grant_each(entries),
        0 <= i < entries.len(),
    ensures
        granted(entries, entries[i].owner, entries[i].spender) == entries[i].allowance,
{
}

/// The fungible asset ledger.
///
/// Its mathematical state is `self@`, a `LedgerState`; every operation is stated as the
/// transition of that state which it performs.
pub struct Ledger {
    accounts: Vec<Account>,
    grants: Vec<Grant>,
    total_supply: i128,
}

impl View for Ledger {
    type V = LedgerState;

    closed spec fn view(&self) -> LedgerState {
        LedgerState {
            balances: Map::total(|a: Address| held(self.accounts@, a)),
            allowances: Map::total(|k: (Address, Address)| granted(self.grants@, k.0, k.1)),
            total_supply: self.total_supply as int,
        }
    }
}

impl Ledger {
    /// Every account and every pair is recorded at most once.
    closed spec fn well_keyed(&self) -> bool {
        &&& one_entry_each(self.accounts@)
        &&& one_grant_each(self.grants@)
    }

    /// The ledger is well formed: its records are consistent and its state is valid, so
    /// the balances add up to the total supply and nothing is negative.
    pub closed spec fn wf(&self) -> bool {
        &&& self.well_keyed()
        &&& self@.valid()
    }

    /// What well-formedness says of the state.
    pub proof fn lemma_wf_state_is_valid(&self)
        requires
            self.wf(),
        ensures
            self@.valid(),
    {
    }

    /// The ledger on which nothing was ever minted or approved.
    pub fn new() -> (ledger: Ledger)
        ensures
            ledger.wf(),
            ledger@ == LedgerState::empty(),
    {
        let ledger = Ledger { accounts: Vec::new(), grants: Vec::new(), total_supply: 0 };
        proof {
            assert(ledger@.balances =~= LedgerState::empty().balances);
            assert(ledger@.allowances =~= LedgerState::empty().allowances);
            LedgerState::lemma_empty_is_valid();
        }
        ledger
    }

    /// How much is in circulation.
    pub fn total_supply(&self) -> (supply: i128)
        ensures
            supply == self@.total_supply,
    {
        self.total_supply
    }

    fn find_account(&self, account: &Address) -> (found: Option<usize>)
        ensures
            match found {
                Some(i) => i < self.accounts.len() && self.accounts[i as int].id == *account,
                None => forall|i: int| 0 <= i < self.accounts.len() ==> self.accounts[i].id
                    != *account,
            },
    {
        let mut i: usize = 0;
        while i < self.accounts.len()
            invariant
                i <= self.accounts.len(),
                forall|j: int| 0 <= j < i ==> self.accounts[j].id != *account,
            decreases self.accounts.len() - i,
        {
            if self.accounts[i].id.same(account) {
                return Some(i);
            }
            i += 1;
        }
        None
    }

    fn find_grant(&self, owner: &Address, spender: &Address) -> (found: Option<usize>)
        ensures
            match found {
                Some(i) => i < self.grants.len() && self.grants[i as int].owner == *owner
                    && self.grants[i as int].spender == *spender,
                None => forall|i: int|
                    0 <= i < self.grants.len() ==> !(self.grants[i].owner == *owner
                        && self.grants[i].spender == *spender),
            },
    {
        let mut i: usize = 0;
        while i < self.grants.len()
            invariant
                i <= self.grants.len(),
                forall|j: int|
                    0 <= j < i ==> !(self.grants[j].owner == *owner && self.grants[j].spender
                        == *spender),
            decreases self.grants.len() - i,
        {
            if self.grants[i].owner.same(owner) && self.grants[i].spender.same(spender) {
                return Some(i);
            }
            i += 1;
        }
        None
    }

    /// What `account` holds; nothing if it never received anything.
    pub fn balance_of(&self, account: &Address) -> (balance: i128)
        requires
            self.wf(),
        ensures
            balance == self@.balance_of(*account),
            0 <= balance <= self@.total_supply,
    {
        proof {
            self@.lemma_balance_within_supply(*account);
        }
        self.recorded_balance(account)
    }

    fn recorded_balance(&self, account: &Address) -> (balance: i128)
        requires
            self.well_keyed(),
        ensures
            balance == self@.balances[*account],
    {
        match self.find_account(account) {
            Some(i) => {
                proof {
                    lemma_held_at(self.accounts@, i as int);
                }
                self.accounts[i].balance
            },
            None => 0,
        }
    }

    /// The allowance of `spender` over the funds of `owner`, as it was last set or spent:
    /// the amount and its expiration. A pair that was never approved has amount and
    /// expiration zero. Whether the allowance is still live is for the caller to decide,
    /// with `Allowance::live_amount`.
    pub fn allowance(&self, owner: &Address, spender: &Address) -> (allowance: Allowance)
        requires
            self.wf(),
        ensures
            allowance == self@.allowance(*owner, *spender),
            allowance.amount >= 0,
    {
        match self.find_grant(owner, spender) {
            Some(i) => {
                proof {
                    lemma_granted_at(self.grants@, i as int);
                }
                self.grants[i].allowance
            },
            None => Allowance::none(),
        }
    }

    /// Creates `amount` new units and credits them to `account`.
    ///
    /// Refused with `InvalidAmount` unless `amount` is positive, and with `Overflow`
    /// where the balance or the total supply would leave the range of `i128`. This
    /// function asks for no authority: the contract admits only the owner to it.
    pub fn mint(&mut self, account: &Address, amount: i128) -> (r: Result<(), TokenError>)
        requires
            old(self).wf(),
        ensures
            final(self).wf(),
            performed(r, old(self)@, final(self)@, old(self)@.mint(*account, amount)),
            amount <= 0 ==> r == Err::<(), TokenError>(TokenError::InvalidAmount),
            amount > 0 && (old(self)@.total_supply + amount > i128::MAX || old(self)@.balance_of(
                *account,
            ) + amount > i128::MAX) ==> r == Err::<(), TokenError>(TokenError::Overflow),
            r is Ok ==> final(self)@.balance_of(*account) == old(self)@.balance_of(*account)
                + amount && final(self)@.total_supply == old(self)@.total_supply + amount,
            r is Err ==> final(self)@ == old(self)@,
    {
        let balance = self.recorded_balance(account);
        match amounts::mint(balance, self.total_supply, amount) {
            Err(e) => Err(e),
            Ok((new_balance, new_supply)) => {
                self.set_balance(account, new_balance);
                self.total_supply = new_supply;
                proof {
                    old(self)@.lemma_adjusted_valid(*account, amount as int);
                }
                Ok(())
            },
        }
    }

    /// Destroys `amount` units that `account` holds. The caller has authenticated
    /// `account`: a holder burns its own funds.
    ///
    /// Refused with `InvalidAmount` unless `amount` is positive, and with
    /// `InsufficientBalance` where `account` holds less.
    pub fn burn(&mut self, account: &Address, amount: i128) -> (r: Result<(), TokenError>)
        requires
            old(self).wf(),
        ensures
            final(self).wf(),
            performed(r, old(self)@, final(self)@, old(self)@.burn(*account, amount)),
            amount <= 0 ==> r == Err::<(), TokenError>(TokenError::InvalidAmount),
            amount > 0 && old(self)@.balance_of(*account) < amount ==> r == Err::<(), TokenError>(
                TokenError::InsufficientBalance,
            ),
            0 < amount <= old(self)@.balance_of(*account) ==> r is Ok && final(self)@.balance_of(
                *account,
            ) == old(self)@.balance_of(*account) - amount && final(self)@.total_supply == old(
                self,
            )@.total_supply - amount,
            r is Err ==> final(self)@ == old(self)@,
    {
        let balance = self.recorded_balance(account);
        proof {
            self@.lemma_balance_within_supply(*account);
        }
        match amounts::burn(balance, self.total_supply, amount) {
            Err(e) => Err(e),
            Ok((new_balance, new_supply)) => {
                self.set_balance(account, new_balance);
                self.total_supply = new_supply;
                proof {
                    old(self)@.lemma_adjusted_valid(*account, -amount);
                }
                Ok(())
            },
        }
    }

    /// Moves `amount` units from `from` to `to`. The caller has authenticated `from`.
    ///
    /// Refused with `InvalidAmount` where `amount` is negative, with
    /// `InsufficientBalance` where `from` holds less, and with `Overflow` where what `to`
    /// would hold leaves the range of `i128`. Moving nothing, or moving to oneself,
    /// changes no balance. The total supply and the allowances stay as they are.
    pub fn transfer(&mut self, from: &Address, to: &Address, amount: i128) -> (r: Result<
        (),
        TokenError,
    >)
        requires
            old(self).wf(),
        ensures
            final(self).wf(),
            performed(r, old(self)@, final(self)@, old(self)@.transfer(*from, *to, amount)),
            amount < 0 ==> r == Err::<(), TokenError>(TokenError::InvalidAmount),
            amount >= 0 && old(self)@.balance_of(*from) < amount ==> r == Err::<(), TokenError>(
                TokenError::InsufficientBalance,
            ),
            0 <= amount <= old(self)@.balance_of(*from) ==> r is Ok,
            r is Ok && *from != *to ==> final(self)@.balance_of(*from) == old(self)@.balance_of(
                *from,
            ) - amount && final(self)@.balance_of(*to) == old(self)@.balance_of(*to) + amount,
            r is Ok && *from == *to ==> final(self)@ == old(self)@,
            r is Err ==> final(self)@ == old(self)@,
            final(self)@.total_supply == old(self)@.total_supply,
            final(self)@.allowances == old(self)@.allowances,
    {
        let from_balance = self.recorded_balance(from);
        proof {
            self@.lemma_transfer_never_overflows(*from, *to, amount);
        }
        if from.same(to) {
            match amounts::debit(from_balance, amount) {
                Err(e) => Err(e),
                Ok(_) => {
                    proof {
                        let there = self@.adjusted(*from, -amount).adjusted(*to, amount as int);
                        assert(there.balances =~= self@.balances);
                    }
                    Ok(())
                },
            }
        } else {
            let to_balance = self.recorded_balance(to);
            match amounts::transfer(from_balance, to_balance, amount) {
                Err(e) => Err(e),
                Ok((new_from, new_to)) => {
                    self.set_balance(from, new_from);
                    self.set_balance(to, new_to);
                    proof {
                        old(self)@.lemma_transfer_is_valid(*from, *to, amount);
                        assert(self@ =~= old(self)@.adjusted(*from, -amount).adjusted(
                            *to,
                            amount as int,
                        ));
                    }
                    Ok(())
                },
            }
        }
    }

    /// Sets what `spender` may move on behalf of `owner` to `amount`, live until
    /// `expiration`. The caller has authenticated `owner`; `now` is the current ledger
    /// time. The allowance replaces the one before: nothing is added up.
    ///
    /// Refused with `InvalidAmount` where `amount` is negative, and with
    /// `InvalidExpiration` where `expiration` lies before `now`.
    pub fn approve(
        &mut self,
        owner: &Address,
        spender: &Address,
        amount: i128,
        expiration: u32,
        now: u32,
    ) -> (r: Result<(), TokenError>)
        requires
            old(self).wf(),
        ensures
            final(self).wf(),
            performed(
                r,
                old(self)@,
                final(self)@,
                old(self)@.approve(*owner, *spender, amount, expiration, now),
            ),
            amount < 0 ==> r == Err::<(), TokenError>(TokenError::InvalidAmount),
            amount >= 0 && expiration < now ==> r == Err::<(), TokenError>(
                TokenError::InvalidExpiration,
            ),
            amount >= 0 && expiration >= now ==> r is Ok && final(self)@.allowance(
                *owner,
                *spender,
            ) == (Allowance { amount, expiration }),
            r is Err ==> final(self)@ == old(self)@,
            final(self)@.balances == old(self)@.balances,
            final(self)@.total_supply == old(self)@.total_supply,
    {
        match Allowance::grant(amount, expiration, now) {
            Err(e) => Err(e),
            Ok(value) => {
                self.set_allowance(owner, spender, value);
                proof {
                    old(self)@.lemma_allowing_valid(*owner, *spender, value);
                }
                Ok(())
            },
        }
    }

    /// Moves `amount` units from `from` to `to` on the allowance that `from` gave to
    /// `spender`, and deducts `amount` from that allowance. The caller has authenticated
    /// `spender`; `now` is the current ledger time.
    ///
    /// Refused with `InvalidAmount` where `amount` is negative; with
    /// `InsufficientAllowance` where the allowance that is live at `now` is less than
    /// `amount` (an expired allowance counts as nothing); then as `transfer` is.
    pub fn transfer_from(
        &mut self,
        spender: &Address,
        from: &Address,
        to: &Address,
        amount: i128,
        now: u32,
    ) -> (r: Result<(), TokenError>)
        requires
            old(self).wf(),
        ensures
            final(self).wf(),
            performed(
                r,
                old(self)@,
                final(self)@,
                old(self)@.transfer_from(*spender, *from, *to, amount, now),
            ),
            amount < 0 ==> r == Err::<(), TokenError>(TokenError::InvalidAmount),
            amount >= 0 && old(self)@.allowance(*from, *spender).live_at(now) < amount ==> r
                == Err::<(), TokenError>(TokenError::InsufficientAllowance),
            0 <= amount <= old(self)@.allowance(*from, *spender).live_at(now) && old(
                self,
            )@.balance_of(*from) < amount ==> r == Err::<(), TokenError>(
                TokenError::InsufficientBalance,
            ),
            0 <= amount <= old(self)@.allowance(*from, *spender).live_at(now) && amount <= old(
                self,
            )@.balance_of(*from) ==> r is Ok,
            r is Ok ==> final(self)@.allowance(*from, *spender).amount == old(self)@.allowance(
                *from,
                *spender,
            ).amount - amount && final(self)@.allowance(*from, *spender).expiration == old(
                self,
            )@.allowance(*from, *spender).expiration,
            r is Ok && *from != *to ==> final(self)@.balance_of(*from) == old(self)@.balance_of(
                *from,
            ) - amount && final(self)@.balance_of(*to) == old(self)@.balance_of(*to) + amount,
            r is Err ==> final(self)@ == old(self)@,
            final(self)@.total_supply == old(self)@.total_supply,
    {
        let current = self.allowance(from, spender);
        proof {
            self@.lemma_transfer_never_overflows(*from, *to, amount);
        }
        match current.spend(amount, now) {
            Err(e) => Err(e),
            Ok(rest) => match self.transfer(from, to, amount) {
                Err(e) => Err(e),
                Ok(()) => {
                    let ghost moved = self@;
                    self.set_allowance(from, spender, rest);
                    proof {
                        moved.lemma_allowing_valid(*from, *spender, rest);
                    }
                    Ok(())
                },
            },
        }
    }

    fn set_balance(&mut self, account: &Address, value: i128)
        requires
            old(self).well_keyed(),
        ensures
            final(self).well_keyed(),
            final(self)@.balances == with_balance(old(self)@.balances, *account, value as int),
            final(self)@.allowances == old(self)@.allowances,
            final(self)@.total_supply == old(self)@.total_supply,
    {
        let ghost before = self.accounts@;
        match self.find_account(account) {
            Some(i) => {
                self.accounts[i].balance = value;
                proof {
                    let after = self.accounts@;
                    assert forall|a: Address| held(after, a) == with_balance(
                        old(self)@.balances,
                        *account,
                        value as int,
                    )[a] by {
                        if exists|j: int| 0 <= j < before.len() && before[j].id == a {
                            let j = choose|j: int| 0 <= j < before.len() && before[j].id == a;
                            lemma_held_at(before, j);
                            lemma_held_at(after, j);
                        }
                    }
                }
            },
            None => {
                self.accounts.push(Account { id: *account, balance: value });
                proof {
                    let after = self.accounts@;
                    assert forall|a: Address| held(after, a) == with_balance(
                        old(self)@.balances,
                        *account,
                        value as int,
                    )[a] by {
                        if a == *account {
                            lemma_held_at(after, before.len() as int);
                        } else if exists|j: int| 0 <= j < before.len() && before[j].id == a {
                            let j = choose|j: int| 0 <= j < before.len() && before[j].id == a;
                            lemma_held_at(before, j);
                            lemma_held_at(after, j);
                        } else {
                            assert(forall|j: int|
                                0 <= j < after.len() ==> after[j].id != a);
                        }
                    }
                }
            },
        }
    }

    fn set_allowance(&mut self, owner: &Address, spender: &Address, value: Allowance)
        requires
            old(self).well_keyed(),
        ensures
            final(self).well_keyed(),
            final(self)@.balances == old(self)@.balances,
            final(self)@.allowances == with_allowance(
                old(self)@.allowances,
                *owner,
                *spender,
                value,
            ),
            final(self)@.total_supply == old(self)@.total_supply,
    {
        let ghost before = self.grants@;
        let ghost target = with_allowance(old(self)@.allowances, *owner, *spender, value);
        match self.find_grant(owner, spender) {
            Some(i) => {
                self.grants[i].allowance = value;
                proof {
                    let after = self.grants@;
                    assert(forall|j: int|
                        0 <= j < after.len() ==> after[j].owner == before[j].owner
                            && after[j].spender == before[j].spender);
                    assert forall|k: (Address, Address)| granted(after, k.0, k.1)
                        == target[k] by {
                        if exists|j: int|
                            0 <= j < before.len() && before[j].owner == k.0 && before[j].spender
                                == k.1 {
                            let j = choose|j: int|
                                0 <= j < before.len() && before[j].owner == k.0
                                    && before[j].spender == k.1;
                            lemma_granted_at(before, j);
                            lemma_granted_at(after, j);
                        }
                    }
                }
            },
            None => {
                self.grants.push(Grant { owner: *owner, spender: *spender, allowance: value });
                proof {
                    let after = self.grants@;
                    assert forall|k: (Address, Address)| granted(after, k.0, k.1)
                        == target[k] by {
                        if k == (*owner, *spender) {
                            lemma_granted_at(after, before.len() as int);
                        } else if exists|j: int|
                            0 <= j < before.len() && before[j].owner == k.0 && before[j].spender
                                == k.1 {
                            let j = choose|j: int|
                                0 <= j < before.len() && before[j].owner == k.0
                                    && before[j].spender == k.1;
                            lemma_granted_at(before, j);
                            lemma_granted_at(after, j);
                        } else {
                            assert(forall|j: int|
                                0 <= j < after.len() ==> !(after[j].owner == k.0
                                    && after[j].spender == k.1));
                        }
                    }
                }
            },
        }
    }
}

} // verus!
