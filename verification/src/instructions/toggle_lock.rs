//! Freezing and unfreezing the vault. Only the authority may, in either
//! state of the lock.

use vstd::prelude::*;
use crate::error::VaultError;
use crate::events::ToggleLockEvent;
use crate::state::{VaultAccount, Wallet};

verus! {

/// The accounts a toggle works on: the calling `vault_authority` and the
/// `vault`.
#[derive(Clone, Copy, Debug, PartialEq, Eq)]
pub struct ToggleLock {
    pub vault_authority: Wallet,
    pub vault: VaultAccount,
}

impl ToggleLock {
    /// What a toggle comes to: the event carries the lock's new value.
    pub open spec fn outcome(self) -> Result<ToggleLockEvent, VaultError> {
        if !self.vault.governed_by(self.vault_authority.key) {
            Err(VaultError::Unauthorized)
        } else {
            Ok(
                ToggleLockEvent {
                    vault: self.vault.key,
                    vault_authority: self.vault.state.vault_authority,
                    locked: !self.vault.state.locked,
                },
            )
        }
    }

    /// The accounts after a toggle: on success the lock is flipped and
    /// nothing else has changed, on failure nothing has changed at all.
    pub open spec fn after(self) -> ToggleLock {
        if self.outcome() is Ok {
            ToggleLock {
                vault_authority: self.vault_authority,
                vault: self.vault.with_lock(!self.vault.state.locked),
            }
        } else {
            self
        }
    }
}

/// Flips the lock of `ctx.vault`.
///
/// Fails with `Unauthorized`, leaving the lock as it was, when the caller is
/// not the vault's authority. On success the event to announce is returned.
/// No balance is ever touched.
pub fn _toggle_lock(ctx: &mut ToggleLock) -> (r: Result<ToggleLockEvent, VaultError>)
    ensures
        r == old(ctx).outcome(),
        *final(ctx) == old(ctx).after(),
        final(ctx).vault.lamports == old(ctx).vault.lamports,
        final(ctx).vault_authority == old(ctx).vault_authority,
        final(ctx).vault.state.vault_authority == old(ctx).vault.state.vault_authority,
        r is Err ==> *final(ctx) == *old(ctx),
        r is Ok ==> final(ctx).vault.state.locked == !old(ctx).vault.state.locked,
{
    if !ctx.vault.state.vault_authority.same(&ctx.vault_authority.key) {
        return Err(VaultError::Unauthorized);
    }
    ctx.vault.state.locked = !ctx.vault.state.locked;
    Ok(
        ToggleLockEvent {
            vault: ctx.vault.key,
            vault_authority: ctx.vault.state.vault_authority,
            locked: ctx.vault.state.locked,
        },
    )
}

/// Two toggles in a row by the authority bring the vault back to where it
/// was. Both succeed; the first event carries the opposite of the initial
/// lock, the second the initial lock itself.
pub proof fn lemma_toggle_twice_restores(ctx: ToggleLock)
    requires
        ctx.vault.state.vault_authority == ctx.vault_authority.key,
    ensures
        ctx.after().after() == ctx,
        ctx.outcome() == Ok::<ToggleLockEvent, VaultError>(
            ToggleLockEvent {
                vault: ctx.vault.key,
                vault_authority: ctx.vault.state.vault_authority,
                locked: !ctx.vault.state.locked,
            },
        ),
        ctx.after().outcome() == Ok::<ToggleLockEvent, VaultError>(
            ToggleLockEvent {
                vault: ctx.vault.key,
                vault_authority: ctx.vault.state.vault_authority,
                locked: ctx.vault.state.locked,
            },
        ),
{
}

/// A toggle by anyone but the authority fails with `Unauthorized` and leaves
/// the lock, and everything else, as it was.
pub proof fn lemma_toggle_by_stranger_rejected(ctx: ToggleLock)
    requires
        ctx.vault.state.vault_authority != ctx.vault_authority.key,
    ensures
        ctx.outcome() == Err::<ToggleLockEvent, VaultError>(VaultError::Unauthorized),
        ctx.after() == ctx,
        ctx.after().vault.state.locked == ctx.vault.state.locked,
{
}

/// A toggle, whether it succeeds or not, touches neither a balance nor the
/// vault's authority nor any account's name.
pub proof fn lemma_toggle_touches_only_the_lock(ctx: ToggleLock)
    ensures
        ctx.after().vault.lamports == ctx.vault.lamports,
        ctx.after().vault.key == ctx.vault.key,
        ctx.after().vault.state.vault_authority == ctx.vault.state.vault_authority,
        ctx.after().vault_authority == ctx.vault_authority,
        ctx.outcome() is Ok <==> ctx.vault.state.vault_authority == ctx.vault_authority.key,
{
}

} // verus!
