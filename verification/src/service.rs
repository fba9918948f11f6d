//! The four vault operations. Each one first checks that the addresses it was
//! given are the ones derivation produces for the owner, then applies the
//! vault's rules, then moves value, and reports what happened as an event.

use vstd::prelude::*;
use crate::account::{StateAccount, SystemAccount};
use crate::address::{derived, derives, verify, Address, Tag};
use crate::error::{fails_with, yields, VaultError};
use crate::ledger::{check_withdraw, withdraw_verdict, VaultState};
use crate::transfer::{moved, moved_as_derived, transfer, transfer_as_derived, Derived};

verus! {

/// Reported when a vault has been created.
#[derive(Clone, Copy, Debug, PartialEq, Eq)]
pub struct InitializeEvent {
    pub user: Address,
}

/// Reported when value has entered a vault.
#[derive(Clone, Copy, Debug, PartialEq, Eq)]
pub struct DepositEvent {
    pub user: Address,
    pub amount: u64,
}

/// Reported when value has left a vault.
#[derive(Clone, Copy, Debug, PartialEq, Eq)]
pub struct WithdrawEvent {
    pub user: Address,
    pub amount: u64,
}

/// Reported when a vault has been emptied and destroyed.
#[derive(Clone, Copy, Debug, PartialEq, Eq)]
pub struct WithdrawAndCloseEvent {
    pub user: Address,
    pub amount: u64,
}

/// The reserve minimums of the two locations, as the ledger's storage cost
/// model gives them at the time of the operation.
#[derive(Clone, Copy, Debug, PartialEq, Eq)]
pub struct Reserves {
    /// Minimum balance of the vault, a location without data.
    pub vault: u64,
    /// Minimum balance of the vault state record's storage.
    pub vault_state: u64,
}

/// The bumps found while the accounts of `initialize` were checked.
#[derive(Clone, Copy, Debug, PartialEq, Eq)]
pub struct InitializeBumps {
    pub vault: u8,
    pub vault_state: u8,
}

/// The accounts of `initialize`.
#[derive(Clone, Copy, Debug, PartialEq, Eq)]
pub struct Initialize {
    pub program_id: Address,
    pub user: SystemAccount,
    pub vault_state: StateAccount,
    pub vault: SystemAccount,
}

/// The accounts of `deposit` and `withdraw`.
#[derive(Clone, Copy, Debug, PartialEq, Eq)]
pub struct Payment {
    pub program_id: Address,
    pub user: SystemAccount,
    pub vault: SystemAccount,
    pub vault_state: StateAccount,
}

/// The accounts of `withdraw_and_close`.
#[derive(Clone, Copy, Debug, PartialEq, Eq)]
pub struct CloseVault {
    pub program_id: Address,
    pub user: SystemAccount,
    pub vault: SystemAccount,
    pub vault_state: StateAccount,
}

/// The seeds under which the vault of the record at `vault_state` signs.
pub open spec fn vault_seeds(vault_state: Address, record: VaultState) -> Derived {
    Derived { tag: Tag::Vault, component: vault_state, bump: record.vault_bump }
}

/// The seeds under which the vault of the record at `vault_state` signs.
pub fn vault_signer(vault_state: &Address, record: &VaultState) -> (seeds: Derived)
    ensures
        seeds == vault_seeds(*vault_state, *record),
{
    Derived { tag: Tag::Vault, component: *vault_state, bump: record.vault_bump }
}

/// The stored record, if it exists and its bumps derive `vault_state` from
/// `user` and `vault` from `vault_state`; else what is wrong.
pub open spec fn bound_record(
    program_id: Address,
    user: Address,
    vault_state: StateAccount,
    vault: Address,
) -> Result<VaultState, VaultError> {
    match vault_state.data {
        None => Err(VaultError::NotInitialized),
        Some(record) => if derives(
            Tag::Vault.seed(),
            vault_state.key@,
            record.vault_bump,
            program_id@,
            vault@,
        ) && derives(Tag::State.seed(), user@, record.state_bump, program_id@, vault_state.key@) {
            Ok(record)
        } else {
            Err(VaultError::DerivationMismatch)
        },
    }
}

/// Looks the record up and recomputes both addresses from its bumps.
fn check_bound(
    program_id: &Address,
    user: &Address,
    vault_state: &StateAccount,
    vault: &Address,
) -> (outcome: Result<VaultState, VaultError>)
    ensures
        outcome == bound_record(*program_id, *user, *vault_state, *vault),
{
    match vault_state.data {
        None => Err(VaultError::NotInitialized),
        Some(record) => {
            if !verify(Tag::Vault, &vault_state.key, record.vault_bump, program_id, vault) {
                return Err(VaultError::DerivationMismatch);
            }
            if !verify(Tag::State, user, record.state_bump, program_id, &vault_state.key) {
                return Err(VaultError::DerivationMismatch);
            }
            Ok(record)
        },
    }
}

impl Initialize {
    /// The canonical bumps of the two addresses, if the addresses supplied are
    /// the derived ones; else what is wrong.
    pub open spec fn derived_bumps(self) -> Result<InitializeBumps, VaultError> {
        match derived(Tag::State.seed(), self.user.key@, self.program_id@) {
            None => Err(VaultError::DerivationExhausted),
            Some((state_address, state_bump)) => if state_address != self.vault_state.key@ {
                Err(VaultError::DerivationMismatch)
            } else {
                match derived(Tag::Vault.seed(), self.vault_state.key@, self.program_id@) {
                    None => Err(VaultError::DerivationExhausted),
                    Some((vault_address, vault_bump)) => if vault_address != self.vault.key@ {
                        Err(VaultError::DerivationMismatch)
                    } else {
                        Ok(InitializeBumps { vault: vault_bump, vault_state: state_bump })
                    },
                }
            },
        }
    }

    /// The accounts after the vault is funded and the bumps are stored.
    pub open spec fn initialized(self, bumps: InitializeBumps, reserve_minimum: u64) -> Result<
        Initialize,
        VaultError,
    > {
        if self.vault_state.data is None {
            Err(VaultError::NotInitialized)
        } else {
            match moved(self.user, self.vault, reserve_minimum) {
                Err(e) => Err(e),
                Ok((user, vault)) => Ok(
                    Initialize {
                        program_id: self.program_id,
                        user,
                        vault_state: StateAccount {
                            key: self.vault_state.key,
                            lamports: self.vault_state.lamports,
                            data: Some(
                                VaultState {
                                    vault_bump: bumps.vault,
                                    state_bump: bumps.vault_state,
                                },
                            ),
                        },
                        vault,
                    },
                ),
            }
        }
    }

    /// Derives both addresses from the owner and compares them with the ones
    /// supplied.
    pub fn validate(&self) -> (outcome: Result<InitializeBumps, VaultError>)
        ensures
            outcome == self.derived_bumps(),
    {
        let (state_address, state_bump) = match crate::address::derive(
            Tag::State,
            &self.user.key,
            &self.program_id,
        ) {
            Ok(found) => found,
            Err(e) => { return Err(e); },
        };
        if !state_address.same_as(&self.vault_state.key) {
            return Err(VaultError::DerivationMismatch);
        }
        let (vault_address, vault_bump) = match crate::address::derive(
            Tag::Vault,
            &self.vault_state.key,
            &self.program_id,
        ) {
            Ok(found) => found,
            Err(e) => { return Err(e); },
        };
        if !vault_address.same_as(&self.vault.key) {
            return Err(VaultError::DerivationMismatch);
        }
        Ok(InitializeBumps { vault: vault_bump, vault_state: state_bump })
    }

    /// Funds the vault with `reserve_minimum` from the owner and stores the
    /// bumps in the record, whose storage must exist.
    pub fn initialize(&mut self, bumps: &InitializeBumps, reserve_minimum: u64) -> (outcome: Result<
        (),
        VaultError,
    >)
        ensures
            match old(self).initialized(*bumps, reserve_minimum) {
                Ok(next) => outcome is Ok && *final(self) == next,
                Err(e) => fails_with(outcome, e) && *final(self) == *old(self),
            },
    {
        if self.vault_state.data.is_none() {
            return Err(VaultError::NotInitialized);
        }
        match transfer(&mut self.user, &mut self.vault, reserve_minimum) {
            Ok(()) => {},
            Err(e) => { return Err(e); },
        }
        self.vault_state.data = Some(
            VaultState { vault_bump: bumps.vault, state_bump: bumps.vault_state },
        );
        Ok(())
    }
}

impl Payment {
    /// The stored record, if the accounts belong together; else what is wrong.
    pub open spec fn record(self) -> Result<VaultState, VaultError> {
        bound_record(self.program_id, self.user.key, self.vault_state, self.vault.key)
    }

    /// The accounts after `amount` has moved from the owner to the vault.
    pub open spec fn deposited(self, amount: u64) -> Result<Payment, VaultError> {
        match moved(self.user, self.vault, amount) {
            Err(e) => Err(e),
            Ok((user, vault)) => Ok(
                Payment {
                    program_id: self.program_id,
                    user,
                    vault,
                    vault_state: self.vault_state,
                },
            ),
        }
    }

    /// The accounts after `amount` has moved from the vault to the owner.
    pub open spec fn withdrawn(self, amount: u64, reserve_minimum: u64) -> Result<
        Payment,
        VaultError,
    > {
        match withdraw_verdict(self.vault.lamports, amount, reserve_minimum) {
            Err(e) => Err(e),
            Ok(()) => match self.vault_state.data {
                None => Err(VaultError::NotInitialized),
                Some(record) => match moved_as_derived(
                    self.vault,
                    self.user,
                    amount,
                    vault_seeds(self.vault_state.key, record),
                    self.program_id,
                ) {
                    Err(e) => Err(e),
                    Ok((vault, user)) => Ok(
                        Payment {
                            program_id: self.program_id,
                            user,
                            vault,
                            vault_state: self.vault_state,
                        },
                    ),
                },
            },
        }
    }

    /// Checks that the record exists and that its bumps derive the addresses
    /// supplied.
    pub fn validate(&self) -> (outcome: Result<VaultState, VaultError>)
        ensures
            outcome == self.record(),
    {
        check_bound(&self.program_id, &self.user.key, &self.vault_state, &self.vault.key)
    }

    /// Moves `amount` from the owner to the vault. Zero is allowed.
    pub fn deposit(&mut self, amount: u64) -> (outcome: Result<(), VaultError>)
        ensures
            match old(self).deposited(amount) {
                Ok(next) => outcome is Ok && *final(self) == next,
                Err(e) => fails_with(outcome, e) && *final(self) == *old(self),
            },
    {
        transfer(&mut self.user, &mut self.vault, amount)
    }

    /// Moves `amount` from the vault to the owner, if the vault keeps
    /// `reserve_minimum` afterwards.
    pub fn withdraw(&mut self, amount: u64, reserve_minimum: u64) -> (outcome: Result<
        (),
        VaultError,
    >)
        ensures
            match old(self).withdrawn(amount, reserve_minimum) {
                Ok(next) => outcome is Ok && *final(self) == next,
                Err(e) => fails_with(outcome, e) && *final(self) == *old(self),
            },
    {
        match check_withdraw(self.vault.lamports, amount, reserve_minimum) {
            Ok(()) => {},
            Err(e) => { return Err(e); },
        }
        let record = match self.vault_state.data {
            Some(record) => record,
            None => { return Err(VaultError::NotInitialized); },
        };
        let seeds = vault_signer(&self.vault_state.key, &record);
        let program_id = self.program_id;
        transfer_as_derived(&mut self.vault, &mut self.user, amount, &seeds, &program_id)
    }
}

impl CloseVault {
    /// The stored record, if the accounts belong together; else what is wrong.
    pub open spec fn record(self) -> Result<VaultState, VaultError> {
        bound_record(self.program_id, self.user.key, self.vault_state, self.vault.key)
    }

    /// The accounts after the vault's whole balance has moved to the owner.
    pub open spec fn drained(self) -> Result<CloseVault, VaultError> {
        match self.vault_state.data {
            None => Err(VaultError::NotInitialized),
            Some(record) => match moved_as_derived(
                self.vault,
                self.user,
                self.vault.lamports,
                vault_seeds(self.vault_state.key, record),
                self.program_id,
            ) {
                Err(e) => Err(e),
                Ok((vault, user)) => Ok(
                    CloseVault {
                        program_id: self.program_id,
                        user,
                        vault,
                        vault_state: self.vault_state,
                    },
                ),
            },
        }
    }

    /// Checks that the record exists and that its bumps derive the addresses
    /// supplied.
    pub fn validate(&self) -> (outcome: Result<VaultState, VaultError>)
        ensures
            outcome == self.record(),
    {
        check_bound(&self.program_id, &self.user.key, &self.vault_state, &self.vault.key)
    }

    /// Moves the vault's whole balance to the owner. No reserve is kept: the
    /// vault ceases to exist.
    pub fn withdraw_and_close(&mut self) -> (outcome: Result<(), VaultError>)
        ensures
            match old(self).drained() {
                Ok(next) => outcome is Ok && *final(self) == next,
                Err(e) => fails_with(outcome, e) && *final(self) == *old(self),
            },
    {
        let record = match self.vault_state.data {
            Some(record) => record,
            None => { return Err(VaultError::NotInitialized); },
        };
        let seeds = vault_signer(&self.vault_state.key, &record);
        let program_id = self.program_id;
        let amount = self.vault.lamports;
        transfer_as_derived(&mut self.vault, &mut self.user, amount, &seeds, &program_id)
    }
}

/// What `initialize` does to accounts that it accepts, and the event it
/// reports; else why it refuses them.
pub open spec fn initialize_outcome(ctx: Initialize, reserves: Reserves) -> Result<
    (Initialize, InitializeEvent),
    VaultError,
> {
    match ctx.derived_bumps() {
        Err(e) => Err(e),
        Ok(bumps) => match ctx.vault_state.created(ctx.user, reserves.vault_state) {
            Err(e) => Err(e),
            Ok((vault_state, user)) => match (Initialize {
                program_id: ctx.program_id,
                user,
                vault_state,
                vault: ctx.vault,
            }).initialized(bumps, reserves.vault) {
                Err(e) => Err(e),
                Ok(next) => Ok((next, InitializeEvent { user: ctx.user.key })),
            },
        },
    }
}

/// What `deposit` does to accounts that it accepts, and the event it reports;
/// else why it refuses them.
pub open spec fn deposit_outcome(ctx: Payment, amount: u64) -> Result<
    (Payment, DepositEvent),
    VaultError,
> {
    match ctx.record() {
        Err(e) => Err(e),
        Ok(_) => match ctx.deposited(amount) {
            Err(e) => Err(e),
            Ok(next) => Ok((next, DepositEvent { user: ctx.user.key, amount })),
        },
    }
}

/// What `withdraw` does to accounts that it accepts, and the event it
/// reports; else why it refuses them.
pub open spec fn withdraw_outcome(ctx: Payment, amount: u64, reserve_minimum: u64) -> Result<
    (Payment, WithdrawEvent),
    VaultError,
> {
    match ctx.record() {
        Err(e) => Err(e),
        Ok(_) => match ctx.withdrawn(amount, reserve_minimum) {
            Err(e) => Err(e),
            Ok(next) => Ok((next, WithdrawEvent { user: ctx.user.key, amount })),
        },
    }
}

/// What `withdraw_and_close` does to accounts that it accepts, and the event
/// it reports; else why it refuses them.
pub open spec fn withdraw_and_close_outcome(ctx: CloseVault) -> Result<
    (CloseVault, WithdrawAndCloseEvent),
    VaultError,
> {
    match ctx.record() {
        Err(e) => Err(e),
        Ok(_) => match ctx.drained() {
            Err(e) => Err(e),
            Ok(drained) => match drained.vault_state.closed(drained.user) {
                Err(e) => Err(e),
                Ok((vault_state, user, _)) => Ok(
                    (
                        CloseVault {
                            program_id: ctx.program_id,
                            user,
                            vault: drained.vault,
                            vault_state,
                        },
                        WithdrawAndCloseEvent { user: ctx.user.key, amount: ctx.vault.lamports },
                    ),
                ),
            },
        },
    }
}

/// Creates the vault of `ctx.user`: checks both derived addresses, creates
/// the record's storage, funds the vault to its reserve minimum and stores
/// the canonical bumps.
pub fn initialize(ctx: &mut Initialize, reserves: &Reserves) -> (outcome: Result<
    InitializeEvent,
    VaultError,
>)
    ensures
        match initialize_outcome(*old(ctx), *reserves) {
            Ok((next, event)) => yields(outcome, event) && *final(ctx) == next,
            Err(e) => fails_with(outcome, e) && *final(ctx) == *old(ctx),
        },
{
    let bumps = match ctx.validate() {
        Ok(bumps) => bumps,
        Err(e) => { return Err(e); },
    };
    let mut next: Initialize = *ctx;
    match next.vault_state.create(&mut next.user, reserves.vault_state) {
        Ok(()) => {},
        Err(e) => { return Err(e); },
    }
    match next.initialize(&bumps, reserves.vault) {
        Ok(()) => {},
        Err(e) => { return Err(e); },
    }
    *ctx = next;
    Ok(InitializeEvent { user: ctx.user.key })
}

/// Moves `amount` from the owner into the vault.
pub fn deposit(ctx: &mut Payment, amount: u64) -> (outcome: Result<DepositEvent, VaultError>)
    ensures
        match deposit_outcome(*old(ctx), amount) {
            Ok((next, event)) => yields(outcome, event) && *final(ctx) == next,
            Err(e) => fails_with(outcome, e) && *final(ctx) == *old(ctx),
        },
{
    match ctx.validate() {
        Ok(_) => {},
        Err(e) => { return Err(e); },
    }
    match ctx.deposit(amount) {
        Ok(()) => {},
        Err(e) => { return Err(e); },
    }
    Ok(DepositEvent { user: ctx.user.key, amount })
}

/// Moves `amount` from the vault back to the owner, provided the vault keeps
/// `reserve_minimum`.
pub fn withdraw(ctx: &mut Payment, amount: u64, reserve_minimum: u64) -> (outcome: Result<
    WithdrawEvent,
    VaultError,
>)
    ensures
        match withdraw_outcome(*old(ctx), amount, reserve_minimum) {
            Ok((next, event)) => yields(outcome, event) && *final(ctx) == next,
            Err(e) => fails_with(outcome, e) && *final(ctx) == *old(ctx),
        },
{
    match ctx.validate() {
        Ok(_) => {},
        Err(e) => { return Err(e); },
    }
    match ctx.withdraw(amount, reserve_minimum) {
        Ok(()) => {},
        Err(e) => { return Err(e); },
    }
    Ok(WithdrawEvent { user: ctx.user.key, amount })
}

/// Moves the vault's whole balance to the owner and destroys the record,
/// whose backing reserve goes to the owner too.
pub fn withdraw_and_close(ctx: &mut CloseVault) -> (outcome: Result<
    WithdrawAndCloseEvent,
    VaultError,
>)
    ensures
        match withdraw_and_close_outcome(*old(ctx)) {
            Ok((next, event)) => yields(outcome, event) && *final(ctx) == next,
            Err(e) => fails_with(outcome, e) && *final(ctx) == *old(ctx),
        },
{
    match ctx.validate() {
        Ok(_) => {},
        Err(e) => { return Err(e); },
    }
    let amount: u64 = ctx.vault.lamports;
    let mut next: CloseVault = *ctx;
    match next.withdraw_and_close() {
        Ok(()) => {},
        Err(e) => { return Err(e); },
    }
    match next.vault_state.close(&mut next.user) {
        Ok(_) => {},
        Err(e) => { return Err(e); },
    }
    *ctx = next;
    Ok(WithdrawAndCloseEvent { user: ctx.user.key, amount })
}

} // verus!
