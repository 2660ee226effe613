//! The swap operation.
use vstd::prelude::*;

use crate::curve::{
    lemma_swap_output_within_reserve, lemma_swap_product_never_decreases, quote_swap,
    swap_output, swap_quote, SwapQuote, POOL_PRECISION,
};
use crate::error::AmmError;
use crate::state::Config;

verus! {

/// A swap against one pool: the pool's configuration and the balances the
/// operation reads, all taken from one snapshot of the ledger.
#[derive(Clone, Copy, Debug)]
pub struct Swap {
    pub config: Config,
    /// The caller's balance of asset X.
    pub user_x: u64,
    /// The caller's balance of asset Y.
    pub user_y: u64,
    /// The pool's vault of asset X.
    pub vault_x: u64,
    /// The pool's vault of asset Y.
    pub vault_y: u64,
    /// Outstanding liquidity shares.
    pub lp_supply: u64,
}

impl Swap {
    /// The reserve paid into: X when trading X for Y.
    pub open spec fn reserve_in(self, is_x: bool) -> u64 {
        if is_x { self.vault_x } else { self.vault_y }
    }

    /// The reserve paid out of: Y when trading X for Y.
    pub open spec fn reserve_out(self, is_x: bool) -> u64 {
        if is_x { self.vault_y } else { self.vault_x }
    }

    /// The caller's balance of the asset paid in.
    pub open spec fn user_in(self, is_x: bool) -> u64 {
        if is_x { self.user_x } else { self.user_y }
    }

    /// The caller's balance of the asset paid out.
    pub open spec fn user_out(self, is_x: bool) -> u64 {
        if is_x { self.user_y } else { self.user_x }
    }

    /// Outcome of moving `amount` of the input asset from the caller to the vault.
    pub open spec fn give_result(self, is_x: bool, amount: u64) -> Result<(), AmmError> {
        if self.user_in(is_x) < amount {
            Err(AmmError::InsufficientBalance)
        } else if self.reserve_in(is_x) + amount > u64::MAX {
            Err(AmmError::Overflow)
        } else {
            Ok(())
        }
    }

    /// Balances after moving `amount` of the input asset from the caller to the vault.
    pub open spec fn given(self, is_x: bool, amount: u64) -> Swap {
        if is_x {
            Swap { user_x: (self.user_x - amount) as u64, vault_x: (self.vault_x + amount) as u64, ..self }
        } else {
            Swap { user_y: (self.user_y - amount) as u64, vault_y: (self.vault_y + amount) as u64, ..self }
        }
    }

    /// Outcome of moving `amount` of the output asset from the vault to the caller.
    pub open spec fn receive_result(self, is_x: bool, amount: u64) -> Result<(), AmmError> {
        if self.reserve_out(is_x) < amount {
            Err(AmmError::InsufficientBalance)
        } else if self.user_out(is_x) + amount > u64::MAX {
            Err(AmmError::Overflow)
        } else {
            Ok(())
        }
    }

    /// Balances after moving `amount` of the output asset from the vault to the caller.
    pub open spec fn received(self, is_x: bool, amount: u64) -> Swap {
        if is_x {
            Swap { vault_y: (self.vault_y - amount) as u64, user_y: (self.user_y + amount) as u64, ..self }
        } else {
            Swap { vault_x: (self.vault_x - amount) as u64, user_x: (self.user_x + amount) as u64, ..self }
        }
    }

    /// What a swap owes: checks in order the lock, the quote, then the two
    /// movements, and returns the first failure or the quote.
    pub open spec fn swap_result(self, is_x: bool, amount: u64, min: u64) -> Result<SwapQuote, AmmError> {
        if self.config.locked {
            Err(AmmError::PoolLocked)
        } else {
            match swap_quote(self.reserve_in(is_x), self.reserve_out(is_x), self.config.fee, amount, min) {
                Err(e) => Err(e),
                Ok(q) => match self.give_result(is_x, q.amount_in_taken) {
                    Err(e) => Err(e),
                    Ok(_) => match self.given(is_x, q.amount_in_taken).receive_result(is_x, q.amount_out_given) {
                        Err(e) => Err(e),
                        Ok(_) => Ok(q),
                    },
                },
            }
        }
    }

    /// Moves `amount` of the input asset from the caller to the pool's vault,
    /// authorised by the caller.
    pub fn give(&mut self, is_x: bool, amount: u64) -> (r: Result<(), AmmError>)
        ensures
            r == old(self).give_result(is_x, amount),
            r is Ok ==> *final(self) == old(self).given(is_x, amount),
            r is Err ==> *final(self) == *old(self),
    {
        if is_x {
            if self.user_x < amount {
                return Err(AmmError::InsufficientBalance);
            }
            if self.vault_x > u64::MAX - amount {
                return Err(AmmError::Overflow);
            }
            self.user_x = self.user_x - amount;
            self.vault_x = self.vault_x + amount;
        } else {
            if self.user_y < amount {
                return Err(AmmError::InsufficientBalance);
            }
            if self.vault_y > u64::MAX - amount {
                return Err(AmmError::Overflow);
            }
            self.user_y = self.user_y - amount;
            self.vault_y = self.vault_y + amount;
        }
        Ok(())
    }

    /// Moves `amount` of the output asset from the pool's vault to the
    /// caller, authorised by the vault signer.
    pub fn receive(&mut self, is_x: bool, amount: u64) -> (r: Result<(), AmmError>)
        ensures
            r == old(self).receive_result(is_x, amount),
            r is Ok ==> *final(self) == old(self).received(is_x, amount),
            r is Err ==> *final(self) == *old(self),
    {
        if is_x {
            if self.vault_y < amount {
                return Err(AmmError::InsufficientBalance);
            }
            if self.user_y > u64::MAX - amount {
                return Err(AmmError::Overflow);
            }
            self.vault_y = self.vault_y - amount;
            self.user_y = self.user_y + amount;
        } else {
            if self.vault_x < amount {
                return Err(AmmError::InsufficientBalance);
            }
            if self.user_x > u64::MAX - amount {
                return Err(AmmError::Overflow);
            }
            self.vault_x = self.vault_x - amount;
            self.user_x = self.user_x + amount;
        }
        Ok(())
    }

    /// Trades `amount` of X for Y when `is_x`, else of Y for X, asking at
    /// least `min` back. A locked pool rejects every swap. On success both
    /// movements are applied and the quote is returned; on failure no
    /// balance changes. The product of the reserves never decreases.
    pub fn swap(&mut self, is_x: bool, amount: u64, min: u64) -> (r: Result<SwapQuote, AmmError>)
        requires
            old(self).config.wf(),
        ensures
            r == old(self).swap_result(is_x, amount, min),
            old(self).config.locked ==> r == Err::<SwapQuote, AmmError>(AmmError::PoolLocked),
            r matches Ok(q) ==> *final(self) == old(self).given(is_x, q.amount_in_taken).received(
                is_x,
                q.amount_out_given,
            ),
            r matches Ok(q) ==> q.amount_in_taken == amount && q.amount_out_given == swap_output(
                old(self).reserve_in(is_x) as int,
                old(self).reserve_out(is_x) as int,
                old(self).config.fee as int,
                amount as int,
            ),
            r is Ok ==> final(self).vault_x * final(self).vault_y >= old(self).vault_x * old(
                self,
            ).vault_y,
            r is Err ==> *final(self) == *old(self),
    {
        if self.config.locked {
            return Err(AmmError::PoolLocked);
        }
        let (reserve_in, reserve_out) = if is_x {
            (self.vault_x, self.vault_y)
        } else {
            (self.vault_y, self.vault_x)
        };
        let quote = match quote_swap(
            reserve_in,
            reserve_out,
            self.lp_supply,
            self.config.fee,
            amount,
            min,
            POOL_PRECISION,
        ) {
            Ok(q) => q,
            Err(e) => return Err(e),
        };
        proof {
            lemma_swap_output_within_reserve(reserve_in, reserve_out, self.config.fee, amount, min);
            lemma_swap_product_never_decreases(reserve_in, reserve_out, self.config.fee, amount);
        }
        let before: Swap = *self;
        match self.give(is_x, quote.amount_in_taken) {
            Ok(()) => {},
            Err(e) => return Err(e),
        }
        match self.receive(is_x, quote.amount_out_given) {
            Ok(()) => {},
            Err(e) => {
                *self = before;
                return Err(e);
            },
        }
        proof {
            if is_x {
                assert(self.vault_x * self.vault_y >= before.vault_x * before.vault_y);
            } else {
                assert(self.vault_y * self.vault_x >= before.vault_y * before.vault_x);
                assert(self.vault_x * self.vault_y == self.vault_y * self.vault_x) by (nonlinear_arith);
                assert(before.vault_x * before.vault_y == before.vault_y * before.vault_x) by (nonlinear_arith);
            }
        }
        Ok(quote)
    }
}

} // verus!
