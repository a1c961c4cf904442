//! The arithmetic of the ledger, on the amounts alone.
//!
//! Each function decides one operation from the figures it concerns and returns the
//! figures to store, or the reason why nothing may be stored.

use vstd::prelude::*;
use crate::error::TokenError;

verus! {

/// What the account holds and what is in circulation after `amount` is minted to an
/// account that holds `balance` while `supply` is in circulation.
pub fn mint(balance: i128, supply: i128, amount: i128) -> (r: Result<(i128, i128), TokenError>)
    ensures
        amount <= 0 ==> r == Err::<(i128, i128), TokenError>(TokenError::InvalidAmount),
        amount > 0 && (supply + amount > i128::MAX || balance + amount > i128::MAX) ==> r == Err::<
            (i128, i128),
            TokenError,
        >(TokenError::Overflow),
        amount > 0 && supply + amount <= i128::MAX && balance + amount <= i128::MAX ==> r is Ok
            && r->Ok_0.0 == balance + amount && r->Ok_0.1 == supply + amount,
{
    if amount <= 0 {
        return Err(TokenError::InvalidAmount);
    }
    match (balance.checked_add(amount), supply.checked_add(amount)) {
        (Some(new_balance), Some(new_supply)) => Ok((new_balance, new_supply)),
        _ => Err(TokenError::Overflow),
    }
}

/// What the account holds and what is in circulation after `amount` is burned from an
/// account that holds `balance` while `supply` is in circulation.
pub fn burn(balance: i128, supply: i128, amount: i128) -> (r: Result<(i128, i128), TokenError>)
    requires
        balance <= supply,
    ensures
        amount <= 0 ==> r == Err::<(i128, i128), TokenError>(TokenError::InvalidAmount),
        amount > 0 && balance < amount ==> r == Err::<(i128, i128), TokenError>(
            TokenError::InsufficientBalance,
        ),
        0 < amount <= balance ==> r is Ok && r->Ok_0.0 == balance - amount && r->Ok_0.1 == supply
            - amount,
{
    if amount <= 0 {
        Err(TokenError::InvalidAmount)
    } else if balance < amount {
        Err(TokenError::InsufficientBalance)
    } else {
        Ok((balance - amount, supply - amount))
    }
}

/// What a holder of `balance` keeps after parting with `amount`.
pub fn debit(balance: i128, amount: i128) -> (r: Result<i128, TokenError>)
    ensures
        amount < 0 ==> r == Err::<i128, TokenError>(TokenError::InvalidAmount),
        amount >= 0 && balance < amount ==> r == Err::<i128, TokenError>(
            TokenError::InsufficientBalance,
        ),
        0 <= amount <= balance ==> r is Ok && r->Ok_0 == balance - amount,
{
    if amount < 0 {
        Err(TokenError::InvalidAmount)
    } else if balance < amount {
        Err(TokenError::InsufficientBalance)
    } else {
        Ok(balance - amount)
    }
}

/// What sender and receiver hold after `amount` moves between two different accounts
/// that hold `from_balance` and `to_balance`.
pub fn transfer(from_balance: i128, to_balance: i128, amount: i128) -> (r: Result<
    (i128, i128),
    TokenError,
>)
    ensures
        amount < 0 ==> r == Err::<(i128, i128), TokenError>(TokenError::InvalidAmount),
        amount >= 0 && from_balance < amount ==> r == Err::<(i128, i128), TokenError>(
            TokenError::InsufficientBalance,
        ),
        0 <= amount <= from_balance && to_balance + amount > i128::MAX ==> r == Err::<
            (i128, i128),
            TokenError,
        >(TokenError::Overflow),
        0 <= amount <= from_balance && to_balance + amount <= i128::MAX ==> r is Ok && r->Ok_0.0
            == from_balance - amount && r->Ok_0.1 == to_balance + amount,
{
    match debit(from_balance, amount) {
        Err(e) => Err(e),
        Ok(new_from) => match to_balance.checked_add(amount) {
            Some(new_to) => Ok((new_from, new_to)),
            None => Err(TokenError::Overflow),
        },
    }
}

} // verus!
