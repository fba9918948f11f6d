//! Moving value between two locations, all of it or none.

use vstd::prelude::*;
use crate::account::SystemAccount;
use crate::address::{derives, verify, Address, Tag};
use crate::error::{fails_with, VaultError};

verus! {

/// The seeds of a derived address, presented to prove authority over it.
#[derive(Clone, Copy, Debug, PartialEq, Eq)]
pub struct Derived {
    pub tag: Tag,
    pub component: Address,
    pub bump: u8,
}

impl Derived {
    /// Whether these seeds derive `address` under `program_id`.
    pub open spec fn authorizes(self, program_id: Address, address: Address) -> bool {
        derives(self.tag.seed(), self.component@, self.bump, program_id@, address@)
    }

    /// Whether these seeds derive `address` under `program_id`.
    pub fn signs_for(&self, program_id: &Address, address: &Address) -> (ok: bool)
        ensures
            ok == self.authorizes(*program_id, *address),
    {
        verify(self.tag, &self.component, self.bump, program_id, address)
    }
}

/// The two accounts after `amount` has moved from the first to the second, or
/// why it cannot move.
pub open spec fn moved(from: SystemAccount, to: SystemAccount, amount: u64) -> Result<
    (SystemAccount, SystemAccount),
    VaultError,
> {
    if from.lamports < amount {
        Err(VaultError::InsufficientFunds)
    } else if to.lamports + amount > u64::MAX {
        Err(VaultError::ArithmeticOverflow)
    } else {
        Ok(
            (
                SystemAccount { key: from.key, lamports: (from.lamports - amount) as u64 },
                SystemAccount { key: to.key, lamports: (to.lamports + amount) as u64 },
            ),
        )
    }
}

/// The two accounts after `amount` has moved out of the derived address
/// `from` on the authority of `seeds`, or why it cannot move.
pub open spec fn moved_as_derived(
    from: SystemAccount,
    to: SystemAccount,
    amount: u64,
    seeds: Derived,
    program_id: Address,
) -> Result<(SystemAccount, SystemAccount), VaultError> {
    if seeds.authorizes(program_id, from.key) {
        moved(from, to, amount)
    } else {
        Err(VaultError::DerivationMismatch)
    }
}

/// Moves `amount` from `from` to `to` on the authority of `from`'s owner,
/// which the caller has established.
pub fn transfer(from: &mut SystemAccount, to: &mut SystemAccount, amount: u64) -> (outcome: Result<
    (),
    VaultError,
>)
    ensures
        match moved(*old(from), *old(to), amount) {
            Ok((debited, credited)) => {
                &&& outcome is Ok
                &&& *final(from) == debited
                &&& *final(to) == credited
            },
            Err(e) => {
                &&& fails_with(outcome, e)
                &&& *final(from) == *old(from)
                &&& *final(to) == *old(to)
            },
        },
{
    if from.lamports < amount {
        return Err(VaultError::InsufficientFunds);
    }
    if amount > u64::MAX - to.lamports {
        return Err(VaultError::ArithmeticOverflow);
    }
    from.lamports = from.lamports - amount;
    to.lamports = to.lamports + amount;
    Ok(())
}

/// Moves `amount` out of the derived address `from`, which has no key of its
/// own: `seeds` must reproduce its derivation under `program_id`.
pub fn transfer_as_derived(
    from: &mut SystemAccount,
    to: &mut SystemAccount,
    amount: u64,
    seeds: &Derived,
    program_id: &Address,
) -> (outcome: Result<(), VaultError>)
    ensures
        match moved_as_derived(*old(from), *old(to), amount, *seeds, *program_id) {
            Ok((debited, credited)) => {
                &&& outcome is Ok
                &&& *final(from) == debited
                &&& *final(to) == credited
            },
            Err(e) => {
                &&& fails_with(outcome, e)
                &&& *final(from) == *old(from)
                &&& *final(to) == *old(to)
            },
        },
{
    if !seeds.signs_for(program_id, &from.key) {
        return Err(VaultError::DerivationMismatch);
    }
    transfer(from, to, amount)
}

} // verus!
