//! Exchange invariant engine of a constant-product automated market maker.
//!
//! The library holds the pricing math for swaps, the proportional
//! redemption math for withdrawals, the validation and ordering rules of the
//! swap and withdraw operations, and the seeds from which the pool's vault
//! signer is derived. Moving tokens on a real ledger is left to the caller:
//! each operation works on a snapshot of the balances it reads, applies its
//! movements to that snapshot all or nothing, and returns the amounts to move.
pub mod error;
pub mod curve;
pub mod state;
pub mod custody;
pub mod swap;
pub mod withdraw;
