//! The configuration record of a trading pair.
use vstd::prelude::*;

use crate::error::AmmError;

verus! {

/// A 32-byte account identity.
pub type Address = [u8; 32];

/// Configuration of one pool, as created at initialisation.
#[derive(Clone, Copy, Debug)]
pub struct Config {
    /// Arbitrary number from which the pool's identity is derived.
    pub seed: u64,
    /// Who may lock and unlock the pool; `None` makes the flag immutable.
    pub authority: Option<Address>,
    /// Mint of the first traded asset.
    pub mint_x: Address,
    /// Mint of the second traded asset.
    pub mint_y: Address,
    /// Swap fee in basis points, taken from the input.
    pub fee: u16,
    /// When set, swaps are rejected.
    pub locked: bool,
    /// Bump of the derived configuration (vault authority) address.
    pub config_bump: u8,
    /// Bump of the derived liquidity-share mint address.
    pub lp_bump: u8,
}

impl Config {
    /// A configuration is valid when its fee is below one whole.
    pub open spec fn wf(&self) -> bool {
        self.fee < 10000
    }
}

/// Creates the configuration of a new, unlocked pool. A fee of one whole
/// (10000 basis points) or more is rejected with `InvalidAmount`.
pub fn initialize(
    seed: u64,
    fee: u16,
    authority: Option<Address>,
    mint_x: Address,
    mint_y: Address,
    config_bump: u8,
    lp_bump: u8,
) -> (r: Result<Config, AmmError>)
    ensures
        fee >= 10000 <==> r is Err,
        r is Err ==> r == Err::<Config, AmmError>(AmmError::InvalidAmount),
        r matches Ok(c) ==> {
            &&& c.wf()
            &&& c.seed == seed
            &&& c.fee == fee
            &&& c.authority == authority
            &&& c.mint_x == mint_x
            &&& c.mint_y == mint_y
            &&& !c.locked
            &&& c.config_bump == config_bump
            &&& c.lp_bump == lp_bump
        },
{
    if fee >= 10000 {
        return Err(AmmError::InvalidAmount);
    }
    Ok(Config { seed, authority, mint_x, mint_y, fee, locked: false, config_bump, lp_bump })
}

} // verus!
