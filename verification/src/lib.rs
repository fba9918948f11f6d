//! A custodial balance vault keyed to a single owning identity.
//!
//! The owner deposits value into a derived address that only this program can
//! sign for, withdraws it again under balance and reserve constraints, or
//! closes the vault and reclaims everything it holds.
//!
//! The library works on plain values. An operation takes the accounts it
//! touches (who they are and what they hold) and either changes all of them
//! as it says and returns the event to report, or changes none and returns
//! the reason. Reading the accounts from the ledger, looking up the reserve
//! minimums of the day and carrying the transfers out is left to the caller.
//!
//! - [`address`]: derivation of the two addresses, and the check of a claimed
//!   address against a stored bump.
//! - [`ledger`]: the stored record and the rule that decides a withdrawal.
//! - [`account`]: the locations as values; creating and destroying the
//!   record's storage.
//! - [`transfer`]: moving value, on the owner's authority or on that of a
//!   derived address.
//! - [`service`]: `initialize`, `deposit`, `withdraw`, `withdraw_and_close`.
//! - [`laws`]: what holds across operations.

pub mod account;
pub mod address;
pub mod error;
pub mod laws;
pub mod ledger;
pub mod service;
pub mod transfer;

pub use crate::account::{StateAccount, SystemAccount};
pub use crate::address::{verify, Address, Tag};
pub use crate::error::VaultError;
pub use crate::ledger::{check_withdraw, VaultState};
pub use crate::service::{
    deposit, initialize, vault_signer, withdraw, withdraw_and_close, CloseVault, DepositEvent,
    Initialize, InitializeBumps, InitializeEvent, Payment, Reserves, WithdrawAndCloseEvent,
    WithdrawEvent,
};
pub use crate::transfer::{transfer, transfer_as_derived, Derived};
