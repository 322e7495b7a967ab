//! Share accounting for a single-asset custodial vault.
//!
//! Depositors hand over an underlying asset and receive shares; shares are
//! later redeemed for a proportional slice of the pooled balance.  This crate
//! holds the accounting rules and their proofs.  Moving assets is left to the
//! caller: every operation returns the quantities to move.

pub mod engine;
pub mod error;
pub mod intent;
pub mod laws;
pub mod math;
pub mod pool;
pub mod state;

pub use crate::engine::{amount_to_release, deposit, initialize_vault, shares_to_mint, withdraw};
pub use crate::error::ErrorCode;
pub use crate::intent::{Authorizer, CustodyIntent};
pub use crate::math::{checked_mul_div, narrow};
pub use crate::state::{Pubkey, VaultConfig};
