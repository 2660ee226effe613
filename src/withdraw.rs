//! The withdrawal of liquidity.
use vstd::prelude::*;

use crate::curve::{quote_withdraw, withdraw_quote, WithdrawQuote, POOL_PRECISION};
use crate::error::AmmError;
use crate::state::Config;

verus! {

/// A withdrawal from one pool: the pool's configuration and the balances
/// the operation reads, all taken from one snapshot of the ledger.
#[derive(Clone, Copy, Debug)]
pub struct Withdraw {
    pub config: Config,
    /// The caller's balance of asset X.
    pub user_x: u64,
    /// The caller's balance of asset Y.
    pub user_y: u64,
    /// The caller's liquidity shares.
    pub user_lp: u64,
    /// The pool's vault of asset X.
    pub vault_x: u64,
    /// The pool's vault of asset Y.
    pub vault_y: u64,
    /// Outstanding liquidity shares.
    pub lp_supply: u64,
}

impl Withdraw {
    /// Outcome of moving `amount` from the vault of X (or Y) to the caller.
    pub open spec fn withdraw_token_result(self, is_x: bool, amount: u64) -> Result<(), AmmError> {
        let vault = if is_x { self.vault_x } else { self.vault_y };
        let user = if is_x { self.user_x } else { self.user_y };
        if vault < amount {
            Err(AmmError::InsufficientBalance)
        } else if user + amount > u64::MAX {
            Err(AmmError::Overflow)
        } else {
            Ok(())
        }
    }

    /// Balances after moving `amount` from the vault of X (or Y) to the caller.
    pub open spec fn token_withdrawn(self, is_x: bool, amount: u64) -> Withdraw {
        if is_x {
            Withdraw { vault_x: (self.vault_x - amount) as u64, user_x: (self.user_x + amount) as u64, ..self }
        } else {
            Withdraw { vault_y: (self.vault_y - amount) as u64, user_y: (self.user_y + amount) as u64, ..self }
        }
    }

    /// Outcome of burning `amount` of the caller's shares.
    pub open spec fn burn_result(self, amount: u64) -> Result<(), AmmError> {
        if self.user_lp < amount {
            Err(AmmError::InsufficientBalance)
        } else if self.lp_supply < amount {
            Err(AmmError::Overflow)
        } else {
            Ok(())
        }
    }

    /// Balances after burning `amount` of the caller's shares.
    pub open spec fn burned(self, amount: u64) -> Withdraw {
        Withdraw {
            user_lp: (self.user_lp - amount) as u64,
            lp_supply: (self.lp_supply - amount) as u64,
            ..self
        }
    }

    /// What a withdrawal owes: checks in order the share amount, the
    /// caller's share balance, the quote, the minimums, then the three
    /// movements, and returns the first failure or the quote.
    pub open spec fn withdraw_result(self, min_x: u64, min_y: u64, amount: u64) -> Result<
        WithdrawQuote,
        AmmError,
    > {
        if amount == 0 {
            Err(AmmError::InvalidAmount)
        } else if amount > self.user_lp {
            Err(AmmError::InsufficientBalance)
        } else {
            match withdraw_quote(self.vault_x, self.vault_y, self.lp_supply, amount) {
                Err(e) => Err(e),
                Ok(q) => if q.amount_x < min_x || q.amount_y < min_y {
                    Err(AmmError::SlippageExceeded)
                } else {
                    let s1 = self.token_withdrawn(true, q.amount_x);
                    let s2 = s1.token_withdrawn(false, q.amount_y);
                    match self.withdraw_token_result(true, q.amount_x) {
                        Err(e) => Err(e),
                        Ok(_) => match s1.withdraw_token_result(false, q.amount_y) {
                            Err(e) => Err(e),
                            Ok(_) => match s2.burn_result(amount) {
                                Err(e) => Err(e),
                                Ok(_) => Ok(q),
                            },
                        },
                    }
                },
            }
        }
    }

    /// Redeems `amount` of the caller's shares for the pro-rata parts of
    /// both vaults, each at least the given minimum. Zero shares are
    /// rejected with `InvalidAmount`, more than the caller holds with
    /// `InsufficientBalance`. On success both assets are paid out, then the
    /// shares are burned, and the quote is returned; on failure no balance
    /// changes.
    pub fn withdraw(&mut self, min_x: u64, min_y: u64, amount: u64) -> (r: Result<
        WithdrawQuote,
        AmmError,
    >)
        ensures
            r == old(self).withdraw_result(min_x, min_y, amount),
            amount == 0 ==> r == Err::<WithdrawQuote, AmmError>(AmmError::InvalidAmount),
            amount > old(self).user_lp ==> r == Err::<WithdrawQuote, AmmError>(
                AmmError::InsufficientBalance,
            ),
            r matches Ok(q) ==> *final(self) == old(self).token_withdrawn(true, q.amount_x).token_withdrawn(
                false,
                q.amount_y,
            ).burned(amount),
            r is Err ==> *final(self) == *old(self),
    {
        if amount == 0 {
            return Err(AmmError::InvalidAmount);
        }
        if amount > self.user_lp {
            return Err(AmmError::InsufficientBalance);
        }
        let quote = match quote_withdraw(
            self.vault_x,
            self.vault_y,
            self.lp_supply,
            amount,
            POOL_PRECISION,
        ) {
            Ok(q) => q,
            Err(e) => return Err(e),
        };
        if quote.amount_x < min_x || quote.amount_y < min_y {
            return Err(AmmError::SlippageExceeded);
        }
        let before: Withdraw = *self;
        match self.withdraw_token(true, quote.amount_x) {
            Ok(()) => {},
            Err(e) => return Err(e),
        }
        match self.withdraw_token(false, quote.amount_y) {
            Ok(()) => {},
            Err(e) => {
                *self = before;
                return Err(e);
            },
        }
        match self.burn_lp_token(amount) {
            Ok(()) => {},
            Err(e) => {
                *self = before;
                return Err(e);
            },
        }
        Ok(quote)
    }

    /// Moves `amount` from the pool's vault of X (when `is_x`) or Y to the
    /// caller, authorised by the vault signer.
    pub fn withdraw_token(&mut self, is_x: bool, amount: u64) -> (r: Result<(), AmmError>)
        ensures
            r == old(self).withdraw_token_result(is_x, amount),
            r is Ok ==> *final(self) == old(self).token_withdrawn(is_x, amount),
            r is Err ==> *final(self) == *old(self),
    {
        if is_x {
            if self.vault_x < amount {
                return Err(AmmError::InsufficientBalance);
            }
            if self.user_x > u64::MAX - amount {
                return Err(AmmError::Overflow);
            }
            self.vault_x = self.vault_x - amount;
            self.user_x = self.user_x + amount;
        } else {
            if self.vault_y < amount {
                return Err(AmmError::InsufficientBalance);
            }
            if self.user_y > u64::MAX - amount {
                return Err(AmmError::Overflow);
            }
            self.vault_y = self.vault_y - amount;
            self.user_y = self.user_y + amount;
        }
        Ok(())
    }

    /// Burns `amount` of the caller's liquidity shares, authorised by the
    /// caller.
    pub fn burn_lp_token(&mut self, amount: u64) -> (r: Result<(), AmmError>)
        ensures
            r == old(self).burn_result(amount),
            r is Ok ==> *final(self) == old(self).burned(amount),
            r is Err ==> *final(self) == *old(self),
    {
        if self.user_lp < amount {
            return Err(AmmError::InsufficientBalance);
        }
        if self.lp_supply < amount {
            return Err(AmmError::Overflow);
        }
        self.user_lp = self.user_lp - amount;
        self.lp_supply = self.lp_supply - amount;
        Ok(())
    }
}

} // verus!
