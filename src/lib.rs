//! A custodial token vault: one authority, one asset account, one time lock.
//!
//! The library holds the authorization and invariant core. Addresses are
//! derived as program addresses, every mutating instruction checks the
//! presented vault address and the recorded authority, and the time lock is
//! a small state machine. Moving tokens and reading the clock are left to the
//! host, which receives a [`vault::TokenTransfer`] to carry out.

mod address;
pub mod derivation;
pub mod vault;
mod instructions;
pub mod laws;
pub mod store;

pub use instructions::{deposit, initialize_vault, lock_vault, unlock_vault, withdraw};
pub use vault::{Deposit, InitializeVault, LockVault, UnlockVault, Vault, VaultError, Withdraw};

pub use address::Address;
