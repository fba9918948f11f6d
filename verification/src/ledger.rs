//! The vault's persistent record and the rule that decides a withdrawal.

use vstd::prelude::*;
use crate::error::VaultError;

verus! {

/// The record kept for one owner: the two bumps fixed at creation.
#[derive(Clone, Copy, Debug, PartialEq, Eq, Structural)]
pub struct VaultState {
    /// Bump of the vault's own address.
    pub vault_bump: u8,
    /// Bump of the address this record is stored at.
    pub state_bump: u8,
}

impl VaultState {
    /// Bytes of storage that the record takes: an 8-byte type prefix and one
    /// byte for each bump.
    pub const INIT_SPACE: usize = 8 + 1 + 1;
}

/// The verdict on withdrawing `amount` from a vault that holds `balance` and
/// must keep `reserve_minimum`. The amount is judged first, then the raw
/// balance, then the balance that would remain.
pub open spec fn withdraw_verdict(balance: u64, amount: u64, reserve_minimum: u64) -> Result<
    (),
    VaultError,
> {
    if amount == 0 {
        Err(VaultError::InvalidAmount)
    } else if amount > balance {
        Err(VaultError::InsufficientBalance)
    } else if balance - amount < reserve_minimum {
        Err(VaultError::InsufficientBalanceForRent)
    } else {
        Ok(())
    }
}

/// Decides whether `amount` may leave a vault that holds `balance` and must
/// keep `reserve_minimum`: it may if it is positive and what remains is at
/// least the reserve minimum.
pub fn check_withdraw(balance: u64, amount: u64, reserve_minimum: u64) -> (verdict: Result<
    (),
    VaultError,
>)
    ensures
        verdict == withdraw_verdict(balance, amount, reserve_minimum),
        verdict is Ok <==> 0 < amount <= balance && balance - amount >= reserve_minimum,
{
    if amount == 0 {
        return Err(VaultError::InvalidAmount);
    }
    if amount > balance {
        return Err(VaultError::InsufficientBalance);
    }
    if balance - amount < reserve_minimum {
        return Err(VaultError::InsufficientBalanceForRent);
    }
    Ok(())
}

} // verus!
