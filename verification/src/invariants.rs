//! What holds of every ledger state that the operations can reach.

use vstd::prelude::*;
use crate::address::Address;
use crate::allowance::Allowance;
use crate::error::TokenError;
use crate::state::{performed, sum_of_balances, with_balance, LedgerState, Operation};

verus! {

/// Changing the balance of an account that is not listed leaves the sum over the list.
pub proof fn lemma_sum_without(
    balances: Map<Address, int>,
    accounts: Seq<Address>,
    account: Address,
    value: int,
)
    requires
        !accounts.contains(account),
    ensures
        sum_of_balances(with_balance(balances, account, value), accounts) == sum_of_balances(
            balances,
            accounts,
        ),
    decreases accounts.len(),
{
    if accounts.len() > 0 {
        let rest = accounts.drop_last();
        assert forall|i: int| 0 <= i < rest.len() implies rest[i] != account by {
        }
        lemma_sum_without(balances, rest, account, value);
    }
}

/// Changing the balance of an account that is listed once changes the sum over the list
/// by as much.
pub proof fn lemma_sum_with(
    balances: Map<Address, int>,
    accounts: Seq<Address>,
    account: Address,
    value: int,
)
    requires
        accounts.no_duplicates(),
        accounts.contains(account),
    ensures
        sum_of_balances(with_balance(balances, account, value), accounts) == sum_of_balances(
            balances,
            accounts,
        ) - balances[account] + value,
    decreases accounts.len(),
{
    let rest = accounts.drop_last();
    let last = accounts.len() - 1;
    if accounts.last() == account {
        assert forall|i: int| 0 <= i < rest.len() implies rest[i] != account by {
        }
        lemma_sum_without(balances, rest, account, value);
    } else {
        let i = choose|i: int| 0 <= i < accounts.len() && accounts[i] == account;
        assert(rest[i] == account);
        lemma_sum_with(balances, rest, account, value);
    }
}

/// Where no balance is negative, no listed account holds more than the sum over the list.
pub proof fn lemma_sum_bounds_each(
    balances: Map<Address, int>,
    accounts: Seq<Address>,
    account: Address,
)
    requires
        forall|a: Address| balances[a] >= 0,
    ensures
        sum_of_balances(balances, accounts) >= 0,
        accounts.contains(account) ==> balances[account] <= sum_of_balances(balances, accounts),
    decreases accounts.len(),
{
    if accounts.len() > 0 {
        let rest = accounts.drop_last();
        lemma_sum_bounds_each(balances, rest, account);
        if accounts.contains(account) && accounts.last() != account {
            let i = choose|i: int| 0 <= i < accounts.len() && accounts[i] == account;
            assert(rest[i] == account);
        }
    }
}

/// Where no balance is negative, two different listed accounts together hold no more than
/// the sum over the list.
pub proof fn lemma_sum_bounds_pair(
    balances: Map<Address, int>,
    accounts: Seq<Address>,
    first: Address,
    second: Address,
)
    requires
        forall|a: Address| balances[a] >= 0,
        accounts.contains(first),
        accounts.contains(second),
        first != second,
    ensures
        balances[first] + balances[second] <= sum_of_balances(balances, accounts),
    decreases accounts.len(),
{
    let rest = accounts.drop_last();
    let i = choose|i: int| 0 <= i < accounts.len() && accounts[i] == first;
    let j = choose|j: int| 0 <= j < accounts.len() && accounts[j] == second;
    if accounts.last() == first {
        assert(rest[j] == second);
        lemma_sum_bounds_each(balances, rest, second);
    } else if accounts.last() == second {
        assert(rest[i] == first);
        lemma_sum_bounds_each(balances, rest, first);
    } else {
        assert(rest[i] == first);
        assert(rest[j] == second);
        lemma_sum_bounds_pair(balances, rest, first, second);
    }
}

/// Where every balance is zero, the sum over any list is zero.
pub proof fn lemma_sum_of_nothing(accounts: Seq<Address>)
    ensures
        sum_of_balances(LedgerState::empty().balances, accounts) == 0,
    decreases accounts.len(),
{
    if accounts.len() > 0 {
        lemma_sum_of_nothing(accounts.drop_last());
    }
}

/// Conservation survives a change of one balance and of the supply by the same amount.
pub proof fn lemma_adjusted_conserved(state: LedgerState, account: Address, delta: int)
    requires
        state.conserved(),
    ensures
        state.adjusted(account, delta).conserved(),
{
    let next = state.adjusted(account, delta);
    let listed = choose|accounts: Seq<Address>| state.lists_all_holders(accounts);
    if listed.contains(account) {
        assert(next.lists_all_holders(listed));
    } else {
        let longer = listed.push(account);
        assert forall|a: Address| next.balances[a] != 0 implies longer.contains(a) by {
            if a == account {
                assert(longer[listed.len() as int] == account);
            } else {
                assert(listed.contains(a));
                let i = choose|i: int| 0 <= i < listed.len() && listed[i] == a;
                assert(longer[i] == a);
            }
        }
        assert(next.lists_all_holders(longer));
    }
    assert forall|accounts: Seq<Address>| #[trigger]
        next.lists_all_holders(accounts) implies sum_of_balances(next.balances, accounts)
        == next.total_supply by {
        if accounts.contains(account) {
            assert(state.lists_all_holders(accounts));
            lemma_sum_with(state.balances, accounts, account, state.balances[account] + delta);
        } else {
            let longer = accounts.push(account);
            assert(longer.drop_last() =~= accounts);
            assert forall|a: Address| state.balances[a] != 0 implies longer.contains(a) by {
                if a == account {
                    assert(longer[accounts.len() as int] == account);
                } else {
                    assert(accounts.contains(a));
                    let i = choose|i: int| 0 <= i < accounts.len() && accounts[i] == a;
                    assert(longer[i] == a);
                }
            }
            assert(state.lists_all_holders(longer));
            lemma_sum_without(state.balances, accounts, account, state.balances[account] + delta);
        }
    }
}

impl LedgerState {
    /// Conservation of supply, in terms of balances alone: in a valid state, over any
    /// list that names every holder once, the balances add up to the total supply.
    pub proof fn lemma_supply_is_sum_of_balances(self, accounts: Seq<Address>)
        requires
            self.valid(),
            self.lists_all_holders(accounts),
        ensures
            sum_of_balances(self.balances, accounts) == self.total_supply,
    {
    }

    /// In a valid state no account holds more than the total supply.
    pub proof fn lemma_balance_within_supply(self, account: Address)
        requires
            self.valid(),
        ensures
            0 <= self.balance_of(account) <= self.total_supply,
    {
        let listed = choose|accounts: Seq<Address>| self.lists_all_holders(accounts);
        lemma_sum_bounds_each(self.balances, listed, account);
    }

    /// In a valid state two different accounts together hold no more than the total supply.
    pub proof fn lemma_two_balances_within_supply(self, first: Address, second: Address)
        requires
            self.valid(),
            first != second,
        ensures
            self.balance_of(first) + self.balance_of(second) <= self.total_supply,
    {
        let listed = choose|accounts: Seq<Address>| self.lists_all_holders(accounts);
        if listed.contains(first) && listed.contains(second) {
            lemma_sum_bounds_pair(self.balances, listed, first, second);
        } else if listed.contains(first) {
            lemma_sum_bounds_each(self.balances, listed, first);
        } else {
            lemma_sum_bounds_each(self.balances, listed, second);
        }
    }

    /// The empty ledger is valid.
    pub proof fn lemma_empty_is_valid()
        ensures
            LedgerState::empty().valid(),
    {
        let state = LedgerState::empty();
        assert(state.lists_all_holders(Seq::<Address>::empty()));
        assert forall|accounts: Seq<Address>| #[trigger]
            state.lists_all_holders(accounts) implies sum_of_balances(state.balances, accounts)
            == 0 by {
            lemma_sum_of_nothing(accounts);
        }
    }

    /// A valid state stays valid when one balance and the supply change by the same
    /// amount within their ranges.
    pub proof fn lemma_adjusted_valid(self, account: Address, delta: int)
        requires
            self.valid(),
            self.balances[account] + delta >= 0,
            0 <= self.total_supply + delta <= i128::MAX,
        ensures
            self.adjusted(account, delta).valid(),
    {
        lemma_adjusted_conserved(self, account, delta);
    }

    /// In a valid state a transfer is never refused for overflow: what the receiver
    /// would hold is part of the supply.
    pub proof fn lemma_transfer_never_overflows(self, from: Address, to: Address, amount: i128)
        requires
            self.valid(),
        ensures
            self.transfer(from, to, amount) != Err::<LedgerState, TokenError>(
                TokenError::Overflow,
            ),
    {
        if from != to {
            self.lemma_two_balances_within_supply(from, to);
        }
    }

    /// A valid state stays valid when an allowance is set to one that is not negative.
    pub proof fn lemma_allowing_valid(self, owner: Address, spender: Address, value: Allowance)
        requires
            self.valid(),
            value.amount >= 0,
        ensures
            self.allowing(owner, spender, value).valid(),
    {
        let next = self.allowing(owner, spender, value);
        let listed = choose|accounts: Seq<Address>| self.lists_all_holders(accounts);
        assert(next.lists_all_holders(listed));
        assert forall|accounts: Seq<Address>| #[trigger]
            next.lists_all_holders(accounts) implies sum_of_balances(next.balances, accounts)
            == next.total_supply by {
            assert(self.lists_all_holders(accounts));
        }
    }

    /// An accepted transfer leads from a valid state to a valid state with the same supply.
    pub proof fn lemma_transfer_is_valid(self, from: Address, to: Address, amount: i128)
        requires
            self.valid(),
            self.transfer(from, to, amount) is Ok,
        ensures
            self.transfer(from, to, amount)->Ok_0.valid(),
            self.transfer(from, to, amount)->Ok_0.total_supply == self.total_supply,
    {
        self.lemma_balance_within_supply(from);
        self.lemma_adjusted_valid(from, -amount);
        let debited = self.adjusted(from, -amount);
        debited.lemma_adjusted_valid(to, amount as int);
    }

    /// Every operation, accepted or refused, leads from a valid state to a valid state.
    pub proof fn lemma_after_is_valid(self, op: Operation)
        requires
            self.valid(),
        ensures
            self.after(op).valid(),
    {
        match op {
            Operation::Mint { account, amount } => {
                if self.mint(account, amount) is Ok {
                    self.lemma_adjusted_valid(account, amount as int);
                }
            },
            Operation::Burn { account, amount } => {
                if self.burn(account, amount) is Ok {
                    self.lemma_balance_within_supply(account);
                    self.lemma_adjusted_valid(account, -amount);
                }
            },
            Operation::Transfer { from, to, amount } => {
                if self.transfer(from, to, amount) is Ok {
                    self.lemma_transfer_is_valid(from, to, amount);
                }
            },
            Operation::Approve { owner, spender, amount, expiration, now } => {
                if self.approve(owner, spender, amount, expiration, now) is Ok {
                    self.lemma_allowing_valid(
                        owner,
                        spender,
                        Allowance::granted(amount, expiration, now)->Ok_0,
                    );
                }
            },
            Operation::TransferFrom { spender, from, to, amount, now } => {
                if self.transfer_from(spender, from, to, amount, now) is Ok {
                    self.lemma_transfer_is_valid(from, to, amount);
                    let moved = self.transfer(from, to, amount)->Ok_0;
                    let rest = self.allowances[(from, spender)].spent(amount, now)->Ok_0;
                    moved.lemma_allowing_valid(from, spender, rest);
                }
            },
        }
    }

    /// A call that performed `op` led to the state after `op`.
    pub proof fn lemma_performed_is_after(
        self,
        r: Result<(), TokenError>,
        next: LedgerState,
        op: Operation,
    )
        requires
            performed(r, self, next, self.outcome(op)),
        ensures
            next == self.after(op),
            r is Ok <==> self.outcome(op) is Ok,
    {
    }

    /// Whatever calls are made on a valid ledger, in whatever order, the state they lead
    /// to is valid.
    pub proof fn lemma_after_all_is_valid(self, ops: Seq<Operation>)
        requires
            self.valid(),
        ensures
            self.after_all(ops).valid(),
        decreases ops.len(),
    {
        if ops.len() > 0 {
            self.lemma_after_all_is_valid(ops.drop_last());
            self.after_all(ops.drop_last()).lemma_after_is_valid(ops.last());
        }
    }
}

/// Conservation of supply, through every history: after any calls on the empty ledger, in
/// any order, accepted or refused, the balances add up to the total supply, over any
/// list that names every holder once.
pub proof fn lemma_supply_conserved_through(ops: Seq<Operation>, accounts: Seq<Address>)
    requires
        LedgerState::empty().after_all(ops).lists_all_holders(accounts),
    ensures
        sum_of_balances(LedgerState::empty().after_all(ops).balances, accounts)
            == LedgerState::empty().after_all(ops).total_supply,
{
    LedgerState::lemma_empty_is_valid();
    LedgerState::empty().lemma_after_all_is_valid(ops);
}

} // verus!
