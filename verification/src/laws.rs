//! What holds of the vault across its operations.
//!
//! The operations themselves state what one call does. The laws here relate
//! several calls, or say of all inputs what a single contract says case by
//! case. They are stated over the same outcome functions that the operations
//! ensure.

use vstd::prelude::*;
use crate::account::SystemAccount;
use crate::address::{derived, derives, program_address, Address, Tag};
use crate::error::{fails_with, yields, VaultError};
use crate::ledger::withdraw_verdict;
use crate::service::{
    deposit_outcome, initialize_outcome, withdraw_and_close_outcome, withdraw_outcome,
    CloseVault, DepositEvent, Initialize, InitializeEvent, Payment, Reserves,
    WithdrawAndCloseEvent, WithdrawEvent,
};

verus! {

/// The accounts of a vault, as `deposit` and `withdraw` take them.
pub open spec fn payment_of(ctx: Initialize) -> Payment {
    Payment {
        program_id: ctx.program_id,
        user: ctx.user,
        vault: ctx.vault,
        vault_state: ctx.vault_state,
    }
}

/// The accounts of a vault, as `withdraw_and_close` takes them.
pub open spec fn closing_of(ctx: Payment) -> CloseVault {
    CloseVault {
        program_id: ctx.program_id,
        user: ctx.user,
        vault: ctx.vault,
        vault_state: ctx.vault_state,
    }
}

/// The accounts of a vault, as `initialize` takes them.
pub open spec fn initializing_of(ctx: Payment) -> Initialize {
    Initialize {
        program_id: ctx.program_id,
        user: ctx.user,
        vault_state: ctx.vault_state,
        vault: ctx.vault,
    }
}

/// The same record and vault, submitted by another user.
pub open spec fn submitted_by(ctx: Payment, user: SystemAccount) -> Payment {
    Payment {
        program_id: ctx.program_id,
        user,
        vault: ctx.vault,
        vault_state: ctx.vault_state,
    }
}

/// All that the three accounts hold together.
pub open spec fn holdings(ctx: Payment) -> int {
    ctx.user.lamports + ctx.vault.lamports + ctx.vault_state.lamports
}

/// The sum of a sequence of amounts.
pub open spec fn total(amounts: Seq<u64>) -> nat
    decreases amounts.len(),
{
    if amounts.len() == 0 {
        0
    } else {
        amounts[0] as nat + total(amounts.drop_first())
    }
}

/// The accounts after the deposits `amounts`, made in this order, or the
/// error of the first one that fails.
pub open spec fn deposits_outcome(ctx: Payment, amounts: Seq<u64>) -> Result<Payment, VaultError>
    decreases amounts.len(),
{
    if amounts.len() == 0 {
        Ok(ctx)
    } else {
        match deposit_outcome(ctx, amounts[0]) {
            Err(e) => Err(e),
            Ok((next, _)) => deposits_outcome(next, amounts.drop_first()),
        }
    }
}

/// One payment into or out of a vault.
pub enum Step {
    Deposit(u64),
    Withdraw(u64),
}

/// The accounts after the payments `steps`, made in this order under one
/// reserve minimum, or the error of the first one that fails.
pub open spec fn payments_outcome(ctx: Payment, steps: Seq<Step>, reserve_minimum: u64) -> Result<
    Payment,
    VaultError,
>
    decreases steps.len(),
{
    if steps.len() == 0 {
        Ok(ctx)
    } else {
        match steps[0] {
            Step::Deposit(amount) => match deposit_outcome(ctx, amount) {
                Err(e) => Err(e),
                Ok((next, _)) => payments_outcome(next, steps.drop_first(), reserve_minimum),
            },
            Step::Withdraw(amount) => match withdraw_outcome(ctx, amount, reserve_minimum) {
                Err(e) => Err(e),
                Ok((next, _)) => payments_outcome(next, steps.drop_first(), reserve_minimum),
            },
        }
    }
}

/// Two addresses with the same bytes are the same address.
pub proof fn law_address_by_bytes(first: Address, second: Address)
    requires
        first@ == second@,
    ensures
        first == second,
{
    assert(first.bytes =~= second.bytes);
}

/// Derivation is a function of the tag, the component and the program: any
/// two results for the same input are the same address and the same bump.
/// This holds of the record's address, derived from the owner, and of the
/// vault's address, derived from the record's.
pub proof fn law_derivation_deterministic(
    tag: Tag,
    component: Address,
    program_id: Address,
    first: (Address, u8),
    second: (Address, u8),
)
    requires
        derived(tag.seed(), component@, program_id@) == Some((first.0@, first.1)),
        derived(tag.seed(), component@, program_id@) == Some((second.0@, second.1)),
    ensures
        first == second,
{
    law_address_by_bytes(first.0, second.0);
}

/// The address that derivation produces is the one that its bump derives: a
/// check with that bump accepts it and no other address.
pub proof fn law_derived_address_verifies(
    tag: Tag,
    component: Address,
    program_id: Address,
    address: Address,
    bump: u8,
    claimed: Address,
)
    requires
        derived(tag.seed(), component@, program_id@) == Some((address@, bump)),
    ensures
        derives(tag.seed(), component@, bump, program_id@, claimed@) <==> claimed == address,
{
    if claimed@ == address@ {
        law_address_by_bytes(claimed, address);
    }
}

/// The verdict on a withdrawal, case by case.
pub proof fn law_withdraw_verdict(balance: u64, amount: u64, reserve_minimum: u64)
    ensures
        withdraw_verdict(balance, amount, reserve_minimum) is Ok <==> 0 < amount <= balance
            && balance - amount >= reserve_minimum,
        fails_with(withdraw_verdict(balance, amount, reserve_minimum), VaultError::InvalidAmount)
            <==> amount == 0,
        fails_with(
            withdraw_verdict(balance, amount, reserve_minimum),
            VaultError::InsufficientBalance,
        ) <==> amount > balance,
        fails_with(
            withdraw_verdict(balance, amount, reserve_minimum),
            VaultError::InsufficientBalanceForRent,
        ) <==> 0 < amount <= balance && balance - amount < reserve_minimum,
{
}

/// After `initialize` the vault holds what it held before and its reserve
/// minimum on top, so exactly the reserve minimum where it was empty; the
/// record exists, is backed by its own reserve and holds the canonical bumps
/// of the two derivations; the owner has paid for both, and nothing else has
/// changed.
pub proof fn law_initialize_funds_vault(ctx: Initialize, reserves: Reserves)
    requires
        initialize_outcome(ctx, reserves) is Ok,
    ensures
        ({
            let (next, event) = initialize_outcome(ctx, reserves)->Ok_0;
            let record = next.vault_state.data->0;
            &&& next.vault.lamports == ctx.vault.lamports + reserves.vault
            &&& ctx.vault.lamports == 0 ==> next.vault.lamports == reserves.vault
            &&& next.vault_state.data is Some
            &&& next.vault_state.lamports >= reserves.vault_state
            &&& next.vault_state.lamports >= ctx.vault_state.lamports
            &&& ctx.vault_state.lamports == 0 ==> next.vault_state.lamports
                == reserves.vault_state
            &&& derived(Tag::State.seed(), ctx.user.key@, ctx.program_id@) == Some(
                (ctx.vault_state.key@, record.state_bump),
            )
            &&& derived(Tag::Vault.seed(), ctx.vault_state.key@, ctx.program_id@) == Some(
                (ctx.vault.key@, record.vault_bump),
            )
            &&& holdings(payment_of(next)) == holdings(payment_of(ctx))
            &&& next.program_id == ctx.program_id
            &&& next.user.key == ctx.user.key
            &&& next.vault.key == ctx.vault.key
            &&& next.vault_state.key == ctx.vault_state.key
            &&& event == InitializeEvent { user: ctx.user.key }
        }),
{
}

/// A vault that `initialize` has created passes the checks of the other
/// operations, and cannot be created a second time.
pub proof fn law_initialized_vault_is_bound(ctx: Initialize, reserves: Reserves)
    requires
        initialize_outcome(ctx, reserves) is Ok,
    ensures
        ({
            let next = initialize_outcome(ctx, reserves)->Ok_0.0;
            &&& yields(payment_of(next).record(), next.vault_state.data->0)
            &&& yields(closing_of(payment_of(next)).record(), next.vault_state.data->0)
            &&& fails_with(initialize_outcome(next, reserves), VaultError::AlreadyInitialized)
        }),
{
    law_initialize_funds_vault(ctx, reserves);
}

/// A deposit that succeeds adds exactly its amount to the vault, takes it
/// from the owner, and leaves the record as it was.
pub proof fn law_deposit_adds(ctx: Payment, amount: u64)
    requires
        deposit_outcome(ctx, amount) is Ok,
    ensures
        ({
            let (next, event) = deposit_outcome(ctx, amount)->Ok_0;
            &&& next.vault.lamports == ctx.vault.lamports + amount
            &&& next.user.lamports == ctx.user.lamports - amount
            &&& next.vault_state == ctx.vault_state
            &&& next.program_id == ctx.program_id
            &&& next.user.key == ctx.user.key
            &&& next.vault.key == ctx.vault.key
            &&& next.record() == ctx.record()
            &&& event == DepositEvent { user: ctx.user.key, amount }
        }),
{
}

/// A deposit into a vault whose accounts are accepted succeeds exactly when
/// the owner holds the amount and the vault can take it. An amount of zero
/// always does, and changes nothing.
pub proof fn law_deposit_succeeds(ctx: Payment, amount: u64)
    requires
        ctx.record() is Ok,
    ensures
        deposit_outcome(ctx, amount) is Ok <==> amount <= ctx.user.lamports && ctx.vault.lamports
            + amount <= u64::MAX,
        yields(deposit_outcome(ctx, 0), (ctx, DepositEvent { user: ctx.user.key, amount: 0 })),
{
}

/// After any sequence of deposits that all succeed, the vault holds what it
/// held before and the sum of the amounts on top.
pub proof fn law_deposits_add_up(ctx: Payment, amounts: Seq<u64>)
    requires
        deposits_outcome(ctx, amounts) is Ok,
    ensures
        deposits_outcome(ctx, amounts)->Ok_0.vault.lamports == ctx.vault.lamports + total(amounts),
        deposits_outcome(ctx, amounts)->Ok_0.user.lamports == ctx.user.lamports - total(amounts),
        deposits_outcome(ctx, amounts)->Ok_0.vault_state == ctx.vault_state,
    decreases amounts.len(),
{
    if amounts.len() > 0 {
        law_deposit_adds(ctx, amounts[0]);
        law_deposits_add_up(deposit_outcome(ctx, amounts[0])->Ok_0.0, amounts.drop_first());
    }
}

/// Counted from a vault that `initialize` found empty, deposits that all
/// succeed leave the initial reserve and the sum of the amounts in it.
pub proof fn law_deposits_on_initial_reserve(
    ctx: Initialize,
    reserves: Reserves,
    amounts: Seq<u64>,
)
    requires
        ctx.vault.lamports == 0,
        initialize_outcome(ctx, reserves) is Ok,
        deposits_outcome(payment_of(initialize_outcome(ctx, reserves)->Ok_0.0), amounts) is Ok,
    ensures
        deposits_outcome(
            payment_of(initialize_outcome(ctx, reserves)->Ok_0.0),
            amounts,
        )->Ok_0.vault.lamports == reserves.vault + total(amounts),
{
    law_initialize_funds_vault(ctx, reserves);
    law_deposits_add_up(payment_of(initialize_outcome(ctx, reserves)->Ok_0.0), amounts);
}

/// Withdrawing nothing fails with `InvalidAmount`, whatever the balance and
/// the reserve: always where the amount is judged alone, and for the whole
/// operation wherever the accounts are accepted.
pub proof fn law_withdraw_zero_rejected(ctx: Payment, reserve_minimum: u64)
    ensures
        fails_with(ctx.withdrawn(0, reserve_minimum), VaultError::InvalidAmount),
        ctx.record() is Ok ==> fails_with(
            withdraw_outcome(ctx, 0, reserve_minimum),
            VaultError::InvalidAmount,
        ),
{
}

/// Withdrawing more than the vault holds, be it by one lamport, fails with
/// `InsufficientBalance`.
pub proof fn law_withdraw_beyond_balance_rejected(ctx: Payment, amount: u64, reserve_minimum: u64)
    requires
        ctx.record() is Ok,
        amount > ctx.vault.lamports,
    ensures
        fails_with(
            withdraw_outcome(ctx, amount, reserve_minimum),
            VaultError::InsufficientBalance,
        ),
{
}

/// A vault that holds its reserve minimum and `slack` more: withdrawing more
/// than the slack fails with `InsufficientBalanceForRent` as long as the
/// vault holds the amount at all; withdrawing the slack succeeds and leaves
/// exactly the reserve minimum.
pub proof fn law_reserve_protected(ctx: Payment, reserve_minimum: u64, slack: u64, amount: u64)
    requires
        ctx.record() is Ok,
        ctx.vault.lamports == reserve_minimum + slack,
    ensures
        slack < amount <= ctx.vault.lamports ==> fails_with(
            withdraw_outcome(ctx, amount, reserve_minimum),
            VaultError::InsufficientBalanceForRent,
        ),
        0 < slack && ctx.user.lamports + slack <= u64::MAX ==> withdraw_outcome(
            ctx,
            slack,
            reserve_minimum,
        ) is Ok && withdraw_outcome(ctx, slack, reserve_minimum)->Ok_0.0.vault.lamports
            == reserve_minimum,
{
}

/// A withdrawal that succeeds moves exactly its amount from the vault to the
/// owner, leaves the record as it was, and leaves the vault at or above its
/// reserve minimum.
pub proof fn law_withdraw_moves(ctx: Payment, amount: u64, reserve_minimum: u64)
    requires
        withdraw_outcome(ctx, amount, reserve_minimum) is Ok,
    ensures
        ({
            let (next, event) = withdraw_outcome(ctx, amount, reserve_minimum)->Ok_0;
            &&& amount > 0
            &&& next.vault.lamports == ctx.vault.lamports - amount
            &&& next.user.lamports == ctx.user.lamports + amount
            &&& next.vault.lamports >= reserve_minimum
            &&& next.vault_state == ctx.vault_state
            &&& next.program_id == ctx.program_id
            &&& next.user.key == ctx.user.key
            &&& next.vault.key == ctx.vault.key
            &&& next.record() == ctx.record()
            &&& event == WithdrawEvent { user: ctx.user.key, amount }
        }),
{
}

/// A vault at or above its reserve minimum stays there through any sequence
/// of deposits and withdrawals that all succeed. Its record stays as it was,
/// and owner and vault together hold what they held before.
pub proof fn law_vault_stays_solvent(ctx: Payment, steps: Seq<Step>, reserve_minimum: u64)
    requires
        ctx.vault.lamports >= reserve_minimum,
        payments_outcome(ctx, steps, reserve_minimum) is Ok,
    ensures
        ({
            let last = payments_outcome(ctx, steps, reserve_minimum)->Ok_0;
            &&& last.vault.lamports >= reserve_minimum
            &&& last.vault_state == ctx.vault_state
            &&& last.user.lamports + last.vault.lamports == ctx.user.lamports
                + ctx.vault.lamports
            &&& last.record() == ctx.record()
        }),
    decreases steps.len(),
{
    if steps.len() > 0 {
        match steps[0] {
            Step::Deposit(amount) => {
                law_deposit_adds(ctx, amount);
                law_vault_stays_solvent(
                    deposit_outcome(ctx, amount)->Ok_0.0,
                    steps.drop_first(),
                    reserve_minimum,
                );
            },
            Step::Withdraw(amount) => {
                law_withdraw_moves(ctx, amount, reserve_minimum);
                law_vault_stays_solvent(
                    withdraw_outcome(ctx, amount, reserve_minimum)->Ok_0.0,
                    steps.drop_first(),
                    reserve_minimum,
                );
            },
        }
    }
}

/// `withdraw_and_close` on accepted accounts succeeds unless the owner's
/// balance would overflow. It moves the vault's whole balance and the
/// record's backing reserve to the owner, whatever the reserve minimum, and
/// destroys the record: the vault takes no further operation but
/// `initialize`.
pub proof fn law_close_drains(ctx: CloseVault)
    requires
        ctx.record() is Ok,
    ensures
        withdraw_and_close_outcome(ctx) is Ok <==> ctx.user.lamports + ctx.vault.lamports
            + ctx.vault_state.lamports <= u64::MAX,
        withdraw_and_close_outcome(ctx) is Err ==> fails_with(
            withdraw_and_close_outcome(ctx),
            VaultError::ArithmeticOverflow,
        ),
        withdraw_and_close_outcome(ctx) matches Ok((next, event)) ==> {
            &&& event == WithdrawAndCloseEvent { user: ctx.user.key, amount: ctx.vault.lamports }
            &&& next.vault.lamports == 0
            &&& next.vault_state.lamports == 0
            &&& next.vault_state.data is None
            &&& next.user.lamports == ctx.user.lamports + ctx.vault.lamports
                + ctx.vault_state.lamports
            &&& next.program_id == ctx.program_id
            &&& next.user.key == ctx.user.key
            &&& next.vault.key == ctx.vault.key
            &&& next.vault_state.key == ctx.vault_state.key
            &&& fails_with(next.record(), VaultError::NotInitialized)
        },
{
}

/// `initialize` on an empty vault, followed at once by `withdraw_and_close`,
/// returns exactly the vault's reserve minimum from the vault, leaves neither
/// the record nor any balance behind, and leaves the owner with all that the
/// three accounts held at the start.
pub proof fn law_close_recovers_reserve(ctx: Initialize, reserves: Reserves)
    requires
        ctx.vault.lamports == 0,
        ctx.user.lamports + ctx.vault_state.lamports <= u64::MAX,
        initialize_outcome(ctx, reserves) is Ok,
    ensures
        ({
            let created = initialize_outcome(ctx, reserves)->Ok_0.0;
            let closed = withdraw_and_close_outcome(closing_of(payment_of(created)));
            &&& closed is Ok
            &&& closed->Ok_0.1 == WithdrawAndCloseEvent {
                user: ctx.user.key,
                amount: reserves.vault,
            }
            &&& closed->Ok_0.0.vault.lamports == 0
            &&& closed->Ok_0.0.vault_state.lamports == 0
            &&& closed->Ok_0.0.vault_state.data is None
            &&& closed->Ok_0.0.user.lamports == ctx.user.lamports + ctx.vault_state.lamports
        }),
{
    law_initialize_funds_vault(ctx, reserves);
    law_initialized_vault_is_bound(ctx, reserves);
    law_close_drains(closing_of(payment_of(initialize_outcome(ctx, reserves)->Ok_0.0)));
}

/// An operation submitted under one user's identity on the record and the
/// vault of another fails with `DerivationMismatch`, wherever derivation
/// tells the two users apart.
pub proof fn law_foreign_accounts_rejected(
    ctx: Payment,
    intruder: SystemAccount,
    amount: u64,
    reserve_minimum: u64,
)
    requires
        ctx.record() is Ok,
        program_address(
            Tag::State.seed(),
            intruder.key@,
            ctx.vault_state.data->0.state_bump,
            ctx.program_id@,
        ) != program_address(
            Tag::State.seed(),
            ctx.user.key@,
            ctx.vault_state.data->0.state_bump,
            ctx.program_id@,
        ),
    ensures
        fails_with(submitted_by(ctx, intruder).record(), VaultError::DerivationMismatch),
        fails_with(
            deposit_outcome(submitted_by(ctx, intruder), amount),
            VaultError::DerivationMismatch,
        ),
        fails_with(
            withdraw_outcome(submitted_by(ctx, intruder), amount, reserve_minimum),
            VaultError::DerivationMismatch,
        ),
        fails_with(
            withdraw_and_close_outcome(closing_of(submitted_by(ctx, intruder))),
            VaultError::DerivationMismatch,
        ),
{
}

/// `initialize` submitted under one user's identity with the record address
/// of another fails with `DerivationMismatch`, wherever derivation tells the
/// two users apart.
pub proof fn law_foreign_record_rejected(ctx: Initialize, intruder: SystemAccount, reserves: Reserves)
    requires
        ctx.derived_bumps() is Ok,
        derived(Tag::State.seed(), intruder.key@, ctx.program_id@) matches Some((theirs, _))
            && derived(Tag::State.seed(), ctx.user.key@, ctx.program_id@) matches Some((ours, _))
            && theirs != ours,
    ensures
        fails_with(
            initialize_outcome(initializing_of(submitted_by(payment_of(ctx), intruder)), reserves),
            VaultError::DerivationMismatch,
        ),
{
}

} // verus!
