//! The ways in which a vault operation can be turned down.

use vstd::prelude::*;

verus! {

/// Why an operation was aborted. Every error aborts the whole operation: the
/// accounts it was given are left exactly as they were.
#[derive(Clone, Copy, Debug, PartialEq, Eq, Structural)]
pub enum VaultError {
    /// The withdrawal amount is zero.
    InvalidAmount,
    /// The withdrawal amount exceeds the vault's current balance.
    InsufficientBalance,
    /// The withdrawal would leave the vault below its reserve minimum.
    InsufficientBalanceForRent,
    /// A supplied address or bump is not what derivation produces.
    DerivationMismatch,
    /// No bump yields a valid derived address for the given seeds.
    DerivationExhausted,
    /// The vault state record already exists.
    AlreadyInitialized,
    /// The vault state record does not exist.
    NotInitialized,
    /// The paying account does not hold the amount to be moved.
    InsufficientFunds,
    /// An amount or a balance would leave the range of 64-bit lamports.
    ArithmeticOverflow,
}

/// `outcome` is the failure `error`.
pub open spec fn fails_with<T>(outcome: Result<T, VaultError>, error: VaultError) -> bool {
    outcome == Err::<T, VaultError>(error)
}

/// `outcome` is the success `value`.
pub open spec fn yields<T>(outcome: Result<T, VaultError>, value: T) -> bool {
    outcome == Ok::<T, VaultError>(value)
}

} // verus!
