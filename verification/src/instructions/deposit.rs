//! Paying into the vault. Anyone may, while the vault is unlocked.

use vstd::prelude::*;
use crate::error::VaultError;
use crate::events::DepositEvent;
use crate::ledger::transfer;
use crate::state::{VaultAccount, Wallet};
use crate::system_program::{system_transfer, TransferInstruction};

verus! {

/// The accounts a deposit works on: the paying `user` and the `vault`.
#[derive(Clone, Copy, Debug, PartialEq, Eq)]
pub struct Deposit {
    pub user: Wallet,
    pub vault: VaultAccount,
}

/// What a successful deposit hands back: the instruction that carries the
/// transfer out on the ledger, and the event to announce once it has.
#[derive(Clone, Debug, PartialEq, Eq)]
pub struct DepositOrder {
    pub instruction: TransferInstruction,
    pub event: DepositEvent,
}

impl DepositOrder {
    /// Closes the deposit once the ledger has answered the instruction. When
    /// the ledger carried the transfer out, the event is handed over to be
    /// announced. When it refused, the deposit fails with `TransferFailed`
    /// and there is no event: nothing has moved on the ledger, and the
    /// accounts stand there as they did before the deposit.
    pub fn settle(self, carried_out: bool) -> (r: Result<DepositEvent, VaultError>)
        ensures
            carried_out ==> r == Ok::<DepositEvent, VaultError>(self.event),
            !carried_out ==> r == Err::<DepositEvent, VaultError>(VaultError::TransferFailed),
    {
        if carried_out {
            Ok(self.event)
        } else {
            Err(VaultError::TransferFailed)
        }
    }
}

impl Deposit {
    /// What a deposit of `amount` comes to. The checks are made in this
    /// order: the lock, then the user's balance, then whether the vault can
    /// hold the sum.
    pub open spec fn outcome(self, amount: u64) -> Result<DepositEvent, VaultError> {
        if self.vault.state.locked {
            Err(VaultError::VaultLocked)
        } else if self.user.lamports < amount {
            Err(VaultError::InsufficientBalance)
        } else if self.vault.lamports + amount > u64::MAX {
            Err(VaultError::TransferFailed)
        } else {
            Ok(DepositEvent { vault: self.vault.key, user: self.user.key, amount })
        }
    }

    /// The accounts after a deposit of `amount`: on success the amount has
    /// moved from the user to the vault, on failure nothing has changed.
    pub open spec fn after(self, amount: u64) -> Deposit {
        if self.outcome(amount) is Ok {
            Deposit {
                user: self.user.holding((self.user.lamports - amount) as u64),
                vault: self.vault.holding((self.vault.lamports + amount) as u64),
            }
        } else {
            self
        }
    }
}

/// Deposits `amount` from `ctx.user` into `ctx.vault`.
///
/// Fails with `VaultLocked` while the vault is locked, with
/// `InsufficientBalance` when the user holds less than `amount`, and with
/// `TransferFailed` when the transfer itself cannot be made. On failure the
/// accounts are untouched. On success `ctx` shows both accounts as they
/// stand once the amount has moved, and the order holds the system program's
/// transfer from the user to the vault, by which the ledger is asked to move
/// it, together with the event to announce once the ledger has. An amount of
/// zero is a deposit like any other.
pub fn _deposit(ctx: &mut Deposit, amount: u64) -> (r: Result<DepositOrder, VaultError>)
    ensures
        match r {
            Ok(order) => old(ctx).outcome(amount) == Ok::<DepositEvent, VaultError>(order.event)
                && order.instruction.moves(old(ctx).user.key, old(ctx).vault.key, amount),
            Err(e) => old(ctx).outcome(amount) == Err::<DepositEvent, VaultError>(e),
        },
        *final(ctx) == old(ctx).after(amount),
        final(ctx).vault.state == old(ctx).vault.state,
        r is Err ==> *final(ctx) == *old(ctx),
        r is Ok ==> final(ctx).vault.lamports == old(ctx).vault.lamports + amount
            && final(ctx).user.lamports == old(ctx).user.lamports - amount,
{
    if ctx.vault.state.locked {
        return Err(VaultError::VaultLocked);
    }
    if ctx.user.lamports < amount {
        return Err(VaultError::InsufficientBalance);
    }
    match transfer(&mut ctx.user.lamports, &mut ctx.vault.lamports, amount) {
        Ok(()) => Ok(
            DepositOrder {
                instruction: system_transfer(&ctx.user.key, &ctx.vault.key, amount),
                event: DepositEvent { vault: ctx.vault.key, user: ctx.user.key, amount },
            },
        ),
        Err(_) => Err(VaultError::TransferFailed),
    }
}

/// A deposit into an unlocked vault by a user who holds at least `amount`
/// raises the vault's balance by exactly `amount`, lowers the user's by
/// exactly `amount`, and yields one event that names the vault, the user and
/// the amount. The one case set aside is a vault so full that the sum would
/// not fit its balance.
pub proof fn lemma_deposit_moves_exact_amount(ctx: Deposit, amount: u64)
    requires
        !ctx.vault.state.locked,
        ctx.user.lamports >= amount,
        ctx.vault.lamports + amount <= u64::MAX,
    ensures
        ctx.outcome(amount) == Ok::<DepositEvent, VaultError>(
            DepositEvent { vault: ctx.vault.key, user: ctx.user.key, amount },
        ),
        ctx.after(amount).vault.lamports == ctx.vault.lamports + amount,
        ctx.after(amount).user.lamports == ctx.user.lamports - amount,
        ctx.after(amount).vault.state == ctx.vault.state,
{
}

/// A deposit into a locked vault fails with `VaultLocked`, whatever the
/// amount and whatever the user holds, and leaves every balance as it was.
pub proof fn lemma_deposit_rejected_while_locked(ctx: Deposit, amount: u64)
    requires
        ctx.vault.state.locked,
    ensures
        ctx.outcome(amount) == Err::<DepositEvent, VaultError>(VaultError::VaultLocked),
        ctx.after(amount) == ctx,
{
}

/// A deposit succeeds exactly when the vault is unlocked, the user holds at
/// least `amount`, and the vault can hold the sum; it never creates or
/// destroys balance.
pub proof fn lemma_deposit_conserves_balance(ctx: Deposit, amount: u64)
    ensures
        ctx.outcome(amount) is Ok <==> !ctx.vault.state.locked && ctx.user.lamports >= amount
            && ctx.vault.lamports + amount <= u64::MAX,
        ctx.after(amount).user.lamports + ctx.after(amount).vault.lamports == ctx.user.lamports
            + ctx.vault.lamports,
        ctx.after(amount).vault.lamports >= ctx.vault.lamports,
{
}

} // verus!
