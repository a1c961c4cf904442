//! Spending rights granted by a holder to a spender.

use vstd::prelude::*;
use crate::error::TokenError;

verus! {

/// What a spender may still move on behalf of a holder, and the last ledger at which
/// the grant is live. A pair that was never approved has the allowance `none()`.
///
/// There is no unlimited grant: every spend is deducted.
#[derive(Clone, Copy, Debug, PartialEq, Eq, Structural)]
pub struct Allowance {
    pub amount: i128,
    pub expiration: u32,
}

impl Allowance {
    /// The amount that can be spent at ledger time `now`: nothing once the grant has expired.
    pub open spec fn live_at(self, now: u32) -> int {
        if self.expiration < now {
            0
        } else {
            self.amount as int
        }
    }

    /// What `grant(amount, expiration, now)` returns.
    pub open spec fn granted(amount: i128, expiration: u32, now: u32) -> Result<
        Allowance,
        TokenError,
    > {
        if amount < 0 {
            Err(TokenError::InvalidAmount)
        } else if expiration < now {
            Err(TokenError::InvalidExpiration)
        } else {
            Ok(Allowance { amount, expiration })
        }
    }

    /// What `spend(amount, now)` returns.
    pub open spec fn spent(self, amount: i128, now: u32) -> Result<Allowance, TokenError> {
        if amount < 0 {
            Err(TokenError::InvalidAmount)
        } else if self.live_at(now) < amount {
            Err(TokenError::InsufficientAllowance)
        } else {
            Ok(Allowance { amount: (self.amount - amount) as i128, expiration: self.expiration })
        }
    }

    /// The allowance of a pair that was never approved.
    pub fn none() -> (a: Allowance)
        ensures
            a == (Allowance { amount: 0, expiration: 0 }),
    {
        Allowance { amount: 0, expiration: 0 }
    }

    /// The amount that can be spent at ledger time `now`.
    pub fn live_amount(&self, now: u32) -> (r: i128)
        ensures
            r == self.live_at(now),
    {
        if self.expiration < now {
            0
        } else {
            self.amount
        }
    }

    /// The allowance that an approval of `amount` until `expiration` sets, at ledger time `now`.
    ///
    /// A negative amount is refused with `InvalidAmount`, then an expiration before `now`
    /// with `InvalidExpiration`, whatever the amount.
    pub fn grant(amount: i128, expiration: u32, now: u32) -> (r: Result<Allowance, TokenError>)
        ensures
            r == Allowance::granted(amount, expiration, now),
            amount < 0 ==> r == Err::<Allowance, TokenError>(TokenError::InvalidAmount),
            amount >= 0 && expiration < now ==> r == Err::<Allowance, TokenError>(
                TokenError::InvalidExpiration,
            ),
            amount >= 0 && expiration >= now ==> r == Ok::<Allowance, TokenError>(
                Allowance { amount, expiration },
            ),
    {
        if amount < 0 {
            Err(TokenError::InvalidAmount)
        } else if expiration < now {
            Err(TokenError::InvalidExpiration)
        } else {
            Ok(Allowance { amount, expiration })
        }
    }

    /// What is left of the allowance after `amount` is spent at ledger time `now`.
    ///
    /// A negative amount is refused with `InvalidAmount`; an amount above what is live at
    /// `now` with `InsufficientAllowance`. Otherwise the amount is deducted and the
    /// expiration kept; spending nothing leaves the allowance as it is, expired or not.
    pub fn spend(&self, amount: i128, now: u32) -> (r: Result<Allowance, TokenError>)
        ensures
            r == self.spent(amount, now),
            amount < 0 ==> r == Err::<Allowance, TokenError>(TokenError::InvalidAmount),
            amount >= 0 && self.live_at(now) < amount ==> r == Err::<Allowance, TokenError>(
                TokenError::InsufficientAllowance,
            ),
            0 <= amount <= self.live_at(now) ==> r is Ok && r->Ok_0.amount == self.amount - amount
                && r->Ok_0.expiration == self.expiration,
    {
        if amount < 0 {
            Err(TokenError::InvalidAmount)
        } else if self.live_amount(now) < amount {
            Err(TokenError::InsufficientAllowance)
        } else {
            Ok(Allowance { amount: self.amount - amount, expiration: self.expiration })
        }
    }
}

} // verus!
