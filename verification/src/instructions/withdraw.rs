//! Paying out of the vault. Only the authority may, while the vault is
//! unlocked, and never so much that the vault account would not survive.

use vstd::prelude::*;
use crate::error::VaultError;
use crate::events::WithdrawEvent;
use crate::ledger::transfer;
use crate::state::{VaultAccount, Wallet};

verus! {

/// The accounts a withdrawal works on: the calling `vault_authority`, which
/// is also paid, and the `vault`.
#[derive(Clone, Copy, Debug, PartialEq, Eq)]
pub struct Withdraw {
    pub vault_authority: Wallet,
    pub vault: VaultAccount,
}

impl Withdraw {
    /// The checks of a withdrawal that need nothing but the accounts, in the
    /// order in which a caller meets them: the lock, then the caller, then
    /// the vault's balance.
    pub open spec fn request(self, amount: u64) -> Result<(), VaultError> {
        if self.vault.state.locked {
            Err(VaultError::VaultLocked)
        } else if !self.vault.governed_by(self.vault_authority.key) {
            Err(VaultError::Unauthorized)
        } else if self.vault.lamports < amount {
            Err(VaultError::InsufficientBalance)
        } else {
            Ok(())
        }
    }

    /// What a withdrawal of `amount` comes to when the vault must keep at
    /// least `rent_exempt`. After the checks of `request` come the survival
    /// floor and then whether the authority can hold the sum.
    pub open spec fn outcome(self, amount: u64, rent_exempt: u64) -> Result<
        WithdrawEvent,
        VaultError,
    > {
        match self.request(amount) {
            Err(e) => Err(e),
            Ok(_) => if self.vault.lamports - amount < rent_exempt {
                Err(VaultError::Overflow)
            } else if self.vault_authority.lamports + amount > u64::MAX {
                Err(VaultError::TransferFailed)
            } else {
                Ok(
                    WithdrawEvent {
                        vault: self.vault.key,
                        vault_authority: self.vault.state.vault_authority,
                        amount,
                    },
                )
            },
        }
    }

    /// The accounts after a withdrawal of `amount`: on success the amount has
    /// moved from the vault to the authority, on failure nothing has changed.
    pub open spec fn after(self, amount: u64, rent_exempt: u64) -> Withdraw {
        if self.outcome(amount, rent_exempt) is Ok {
            Withdraw {
                vault_authority: self.vault_authority.holding(
                    (self.vault_authority.lamports + amount) as u64,
                ),
                vault: self.vault.holding((self.vault.lamports - amount) as u64),
            }
        } else {
            self
        }
    }

    /// Makes the checks of a withdrawal that need nothing from the ledger but
    /// the accounts themselves, and changes nothing.
    pub fn check_request(&self, amount: u64) -> (r: Result<(), VaultError>)
        ensures
            r == self.request(amount),
    {
        if self.vault.state.locked {
            return Err(VaultError::VaultLocked);
        }
        if !self.vault.state.vault_authority.same(&self.vault_authority.key) {
            return Err(VaultError::Unauthorized);
        }
        if self.vault.lamports < amount {
            return Err(VaultError::InsufficientBalance);
        }
        Ok(())
    }
}

/// Withdraws `amount` from `ctx.vault` to `ctx.vault_authority`, where
/// `rent_exempt` is the least the vault account must keep to stay alive.
///
/// Fails, in this order, with `VaultLocked` while the vault is locked, with
/// `Unauthorized` when the caller is not the vault's authority, with
/// `InsufficientBalance` when the vault holds less than `amount`, with
/// `Overflow` when the vault would be left with less than `rent_exempt`, and
/// with `TransferFailed` when the transfer itself cannot be made. On failure
/// the accounts are untouched. On success the amount has left the vault and
/// reached the authority in one step, and the event to announce is returned.
/// An amount of zero is a withdrawal like any other.
pub fn _withdraw(ctx: &mut Withdraw, amount: u64, rent_exempt: u64) -> (r: Result<
    WithdrawEvent,
    VaultError,
>)
    ensures
        r == old(ctx).outcome(amount, rent_exempt),
        *final(ctx) == old(ctx).after(amount, rent_exempt),
        final(ctx).vault.state == old(ctx).vault.state,
        r is Err ==> *final(ctx) == *old(ctx),
        r is Ok ==> final(ctx).vault.lamports == old(ctx).vault.lamports - amount
            && final(ctx).vault_authority.lamports == old(ctx).vault_authority.lamports + amount
            && final(ctx).vault.lamports >= rent_exempt,
{
    match ctx.check_request(amount) {
        Err(e) => {
            return Err(e);
        },
        Ok(()) => {},
    }
    if ctx.vault.lamports - amount < rent_exempt {
        return Err(VaultError::Overflow);
    }
    match transfer(&mut ctx.vault.lamports, &mut ctx.vault_authority.lamports, amount) {
        Ok(()) => Ok(
            WithdrawEvent {
                vault: ctx.vault.key,
                vault_authority: ctx.vault.state.vault_authority,
                amount,
            },
        ),
        Err(_) => Err(VaultError::TransferFailed),
    }
}

/// A withdrawal from an unlocked vault by anyone but its authority fails
/// with `Unauthorized` and leaves every balance as it was. (On a locked vault
/// the lock is reported first.)
pub proof fn lemma_withdraw_by_stranger_rejected(ctx: Withdraw, amount: u64, rent_exempt: u64)
    requires
        !ctx.vault.state.locked,
        ctx.vault.state.vault_authority != ctx.vault_authority.key,
    ensures
        ctx.outcome(amount, rent_exempt) == Err::<WithdrawEvent, VaultError>(
            VaultError::Unauthorized,
        ),
        ctx.after(amount, rent_exempt) == ctx,
{
}

/// A withdrawal from a locked vault fails with `VaultLocked`, whoever calls
/// and whatever the amount, and leaves every balance as it was.
pub proof fn lemma_withdraw_rejected_while_locked(ctx: Withdraw, amount: u64, rent_exempt: u64)
    requires
        ctx.vault.state.locked,
    ensures
        ctx.outcome(amount, rent_exempt) == Err::<WithdrawEvent, VaultError>(
            VaultError::VaultLocked,
        ),
        ctx.after(amount, rent_exempt) == ctx,
{
}

/// The authority's withdrawal of more than an unlocked vault holds fails with
/// `InsufficientBalance` and leaves every balance as it was.
pub proof fn lemma_withdraw_beyond_balance_rejected(ctx: Withdraw, amount: u64, rent_exempt: u64)
    requires
        !ctx.vault.state.locked,
        ctx.vault.state.vault_authority == ctx.vault_authority.key,
        amount > ctx.vault.lamports,
    ensures
        ctx.outcome(amount, rent_exempt) == Err::<WithdrawEvent, VaultError>(
            VaultError::InsufficientBalance,
        ),
        ctx.after(amount, rent_exempt) == ctx,
{
}

/// The authority's withdrawal of an amount that an unlocked vault holds, but
/// that would leave it with less than `rent_exempt`, fails with `Overflow`
/// and leaves every balance as it was.
pub proof fn lemma_withdraw_below_floor_rejected(ctx: Withdraw, amount: u64, rent_exempt: u64)
    requires
        !ctx.vault.state.locked,
        ctx.vault.state.vault_authority == ctx.vault_authority.key,
        amount <= ctx.vault.lamports,
        ctx.vault.lamports - amount < rent_exempt,
    ensures
        ctx.outcome(amount, rent_exempt) == Err::<WithdrawEvent, VaultError>(
            VaultError::Overflow,
        ),
        ctx.after(amount, rent_exempt) == ctx,
{
}

/// A withdrawal succeeds exactly when the vault is unlocked, the caller is
/// its authority, the vault holds `amount`, what remains is at least
/// `rent_exempt`, and the authority can hold the sum. A successful one
/// leaves the vault at or above `rent_exempt`; none creates or destroys
/// balance, none raises the vault's balance, and none touches the record.
pub proof fn lemma_withdraw_keeps_vault_alive(ctx: Withdraw, amount: u64, rent_exempt: u64)
    ensures
        ctx.outcome(amount, rent_exempt) is Ok <==> !ctx.vault.state.locked
            && ctx.vault.state.vault_authority == ctx.vault_authority.key && ctx.vault.lamports
            >= amount && ctx.vault.lamports - amount >= rent_exempt
            && ctx.vault_authority.lamports + amount <= u64::MAX,
        ctx.outcome(amount, rent_exempt) is Ok ==> ctx.after(amount, rent_exempt).vault.lamports
            == ctx.vault.lamports - amount && ctx.after(amount, rent_exempt).vault.lamports
            >= rent_exempt,
        ctx.after(amount, rent_exempt).vault_authority.lamports + ctx.after(
            amount,
            rent_exempt,
        ).vault.lamports == ctx.vault_authority.lamports + ctx.vault.lamports,
        ctx.after(amount, rent_exempt).vault.lamports <= ctx.vault.lamports,
        ctx.after(amount, rent_exempt).vault.state == ctx.vault.state,
{
}

} // verus!
