//! The locations a vault operation touches, as plain values: who they are and
//! what they hold.

use vstd::prelude::*;
use crate::address::Address;
use crate::error::{fails_with, yields, VaultError};
use crate::ledger::VaultState;

verus! {

/// A location that holds a balance and no data: the owner's own account, or
/// the vault.
#[derive(Clone, Copy, Debug, PartialEq, Eq)]
pub struct SystemAccount {
    pub key: Address,
    /// The balance, in lamports.
    pub lamports: u64,
}

/// The location of the vault state record. `data` is `None` while the record
/// does not exist; `lamports` is the reserve that backs its storage.
#[derive(Clone, Copy, Debug, PartialEq, Eq)]
pub struct StateAccount {
    pub key: Address,
    pub lamports: u64,
    pub data: Option<VaultState>,
}

impl StateAccount {
    /// What `payer` has to add so that the record's storage holds `reserve`.
    pub open spec fn shortfall(self, reserve: u64) -> u64 {
        if self.lamports < reserve {
            (reserve - self.lamports) as u64
        } else {
            0
        }
    }

    /// The record and the payer after the record's storage is created, or why
    /// it cannot be.
    pub open spec fn created(self, payer: SystemAccount, reserve: u64) -> Result<
        (StateAccount, SystemAccount),
        VaultError,
    > {
        if self.data is Some {
            Err(VaultError::AlreadyInitialized)
        } else if payer.lamports < self.shortfall(reserve) {
            Err(VaultError::InsufficientFunds)
        } else {
            Ok(
                (
                    StateAccount {
                        key: self.key,
                        lamports: (self.lamports + self.shortfall(reserve)) as u64,
                        data: Some(VaultState { vault_bump: 0, state_bump: 0 }),
                    },
                    SystemAccount {
                        key: payer.key,
                        lamports: (payer.lamports - self.shortfall(reserve)) as u64,
                    },
                ),
            )
        }
    }

    /// The record, the recipient and the reclaimed reserve after the record's
    /// storage is destroyed, or why it cannot be.
    pub open spec fn closed(self, recipient: SystemAccount) -> Result<
        (StateAccount, SystemAccount, u64),
        VaultError,
    > {
        if self.data is None {
            Err(VaultError::NotInitialized)
        } else if recipient.lamports + self.lamports > u64::MAX {
            Err(VaultError::ArithmeticOverflow)
        } else {
            Ok(
                (
                    StateAccount { key: self.key, lamports: 0, data: None },
                    SystemAccount {
                        key: recipient.key,
                        lamports: (recipient.lamports + self.lamports) as u64,
                    },
                    self.lamports,
                ),
            )
        }
    }

    /// Creates the record's storage: a zeroed record, backed by at least
    /// `reserve` lamports, of which `payer` adds what is missing.
    pub fn create(&mut self, payer: &mut SystemAccount, reserve: u64) -> (outcome: Result<
        (),
        VaultError,
    >)
        ensures
            match old(self).created(*old(payer), reserve) {
                Ok((record, paid)) => {
                    &&& outcome is Ok
                    &&& *final(self) == record
                    &&& *final(payer) == paid
                },
                Err(e) => {
                    &&& fails_with(outcome, e)
                    &&& *final(self) == *old(self)
                    &&& *final(payer) == *old(payer)
                },
            },
    {
        if self.data.is_some() {
            return Err(VaultError::AlreadyInitialized);
        }
        let missing: u64 = if self.lamports < reserve {
            reserve - self.lamports
        } else {
            0
        };
        if payer.lamports < missing {
            return Err(VaultError::InsufficientFunds);
        }
        payer.lamports = payer.lamports - missing;
        self.lamports = self.lamports + missing;
        self.data = Some(VaultState { vault_bump: 0, state_bump: 0 });
        Ok(())
    }

    /// Destroys the record's storage and hands its backing reserve to
    /// `recipient`. Returns the reclaimed amount.
    pub fn close(&mut self, recipient: &mut SystemAccount) -> (outcome: Result<u64, VaultError>)
        ensures
            match old(self).closed(*old(recipient)) {
                Ok((record, paid, reclaimed)) => {
                    &&& yields(outcome, reclaimed)
                    &&& *final(self) == record
                    &&& *final(recipient) == paid
                },
                Err(e) => {
                    &&& fails_with(outcome, e)
                    &&& *final(self) == *old(self)
                    &&& *final(recipient) == *old(recipient)
                },
            },
    {
        if self.data.is_none() {
            return Err(VaultError::NotInitialized);
        }
        let reclaimed: u64 = self.lamports;
        if reclaimed > u64::MAX - recipient.lamports {
            return Err(VaultError::ArithmeticOverflow);
        }
        recipient.lamports = recipient.lamports + reclaimed;
        self.lamports = 0;
        self.data = None;
        Ok(reclaimed)
    }
}

} // verus!
