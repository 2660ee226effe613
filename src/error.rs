use vstd::prelude::*;

verus! {

/// Every way an exchange operation can be rejected.
#[derive(Clone, Copy, Debug, PartialEq, Eq, Structural)]
pub enum AmmError {
    /// A requested amount is zero or otherwise meaningless.
    InvalidAmount,
    /// The quoted result is below the minimum the caller accepts.
    SlippageExceeded,
    /// Trading on the pool is disabled.
    PoolLocked,
    /// The paying account holds fewer tokens than the movement needs.
    InsufficientBalance,
    /// A balance or an intermediate value would leave the range of `u64`.
    Overflow,
}

} // verus!
