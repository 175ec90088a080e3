//! What holds of a vault over any number of operations, in any order and by
//! any callers.

use vstd::prelude::*;
use crate::error::VaultError;
use crate::events::WithdrawEvent;
use crate::identity::Identity;
use crate::instructions::deposit::Deposit;
use crate::instructions::toggle_lock::ToggleLock;
use crate::instructions::withdraw::Withdraw;
use crate::state::{VaultAccount, Wallet};

verus! {

/// One call on a vault: which operation, by whom, and with what.
#[derive(Clone, Copy, Debug, PartialEq, Eq)]
pub enum Operation {
    /// `_deposit` with `user` paying `amount`, carried out by the ledger where
    /// the vault lets it through.
    Deposit { user: Wallet, amount: u64 },
    /// `_withdraw` called by `caller` for `amount`, the vault's survival floor
    /// being `rent_exempt` at that time.
    Withdraw { caller: Wallet, amount: u64, rent_exempt: u64 },
    /// `_toggle_lock` called by `caller`.
    ToggleLock { caller: Wallet },
}

impl Operation {
    /// Whether the operation is one that only the authority may make, made by
    /// `authority`.
    pub open spec fn privileged_call_by(self, authority: Identity) -> bool {
        match self {
            Operation::Deposit { .. } => false,
            Operation::Withdraw { caller, .. } => caller.key == authority,
            Operation::ToggleLock { caller } => caller.key == authority,
        }
    }

    /// Whether the operation is a toggle called by `authority`.
    pub open spec fn toggle_by(self, authority: Identity) -> bool {
        match self {
            Operation::ToggleLock { caller } => caller.key == authority,
            _ => false,
        }
    }

    /// Whether the operation, if it is a withdrawal, asks the vault to keep
    /// at least `floor`.
    pub open spec fn respects_floor(self, floor: u64) -> bool {
        match self {
            Operation::Withdraw { rent_exempt, .. } => rent_exempt >= floor,
            _ => true,
        }
    }
}

/// The vault after `op` is called on it, whether the call succeeds or not.
pub open spec fn step(vault: VaultAccount, op: Operation) -> VaultAccount {
    match op {
        Operation::Deposit { user, amount } => (Deposit { user, vault }).after(amount).vault,
        Operation::Withdraw { caller, amount, rent_exempt } => (Withdraw {
            vault_authority: caller,
            vault,
        }).after(amount, rent_exempt).vault,
        Operation::ToggleLock { caller } => (ToggleLock { vault_authority: caller, vault }).after().vault,
    }
}

/// What `op` adds to the vault's balance when called on `vault`: the amount
/// of a deposit that succeeds, minus the amount of a withdrawal that
/// succeeds, and nothing otherwise.
pub open spec fn flow(vault: VaultAccount, op: Operation) -> int {
    match op {
        Operation::Deposit { user, amount } => if (Deposit { user, vault }).outcome(amount) is Ok {
            amount as int
        } else {
            0
        },
        Operation::Withdraw { caller, amount, rent_exempt } => if (Withdraw {
            vault_authority: caller,
            vault,
        }).outcome(amount, rent_exempt) is Ok {
            -(amount as int)
        } else {
            0
        },
        Operation::ToggleLock { .. } => 0,
    }
}

/// The vault after the calls `ops` are made on it one after another.
pub open spec fn run(vault: VaultAccount, ops: Seq<Operation>) -> VaultAccount
    decreases ops.len(),
{
    if ops.len() == 0 {
        vault
    } else {
        step(run(vault, ops.drop_last()), ops.last())
    }
}

/// The sum of what each of the calls `ops` adds to the vault's balance.
pub open spec fn net_flow(vault: VaultAccount, ops: Seq<Operation>) -> int
    decreases ops.len(),
{
    if ops.len() == 0 {
        0
    } else {
        net_flow(vault, ops.drop_last()) + flow(run(vault, ops.drop_last()), ops.last())
    }
}

/// One call changes the vault's balance by exactly its flow and never
/// changes the vault's name or its authority.
pub proof fn lemma_step_effect(vault: VaultAccount, op: Operation)
    ensures
        step(vault, op).lamports == vault.lamports + flow(vault, op),
        step(vault, op).key == vault.key,
        step(vault, op).state.vault_authority == vault.state.vault_authority,
{
}

/// Over any calls whatever the vault's balance is what it was plus every
/// amount deposited minus every amount withdrawn, counted as whole numbers:
/// the balance never wraps, and so never falls below zero.
pub proof fn lemma_balance_never_negative(vault: VaultAccount, ops: Seq<Operation>)
    ensures
        run(vault, ops).lamports == vault.lamports + net_flow(vault, ops),
        vault.lamports + net_flow(vault, ops) >= 0,
    decreases ops.len(),
{
    if ops.len() > 0 {
        lemma_balance_never_negative(vault, ops.drop_last());
        lemma_step_effect(run(vault, ops.drop_last()), ops.last());
    }
}

/// No call changes the vault's name or its authority.
pub proof fn lemma_authority_never_changes(vault: VaultAccount, ops: Seq<Operation>)
    ensures
        run(vault, ops).key == vault.key,
        run(vault, ops).state.vault_authority == vault.state.vault_authority,
    decreases ops.len(),
{
    if ops.len() > 0 {
        lemma_authority_never_changes(vault, ops.drop_last());
        lemma_step_effect(run(vault, ops.drop_last()), ops.last());
    }
}

/// While none of the calls is a withdrawal or a toggle by the authority, the
/// lock stays as it is and the vault's balance does not fall.
pub proof fn lemma_only_authority_takes_or_locks(vault: VaultAccount, ops: Seq<Operation>)
    requires
        forall|i: int|
            0 <= i < ops.len() ==> !(#[trigger] ops[i]).privileged_call_by(
                vault.state.vault_authority,
            ),
    ensures
        run(vault, ops).state.locked == vault.state.locked,
        run(vault, ops).lamports >= vault.lamports,
    decreases ops.len(),
{
    if ops.len() > 0 {
        let earlier = ops.drop_last();
        assert forall|i: int| 0 <= i < earlier.len() implies !(#[trigger] earlier[i]).privileged_call_by(
            vault.state.vault_authority,
        ) by {
            assert(earlier[i] == ops[i]);
        }
        lemma_only_authority_takes_or_locks(vault, earlier);
        lemma_authority_never_changes(vault, earlier);
        assert(!ops[ops.len() - 1].privileged_call_by(vault.state.vault_authority));
    }
}

/// A locked vault stays exactly as it is, lock and balance, until its
/// authority toggles the lock: no other call gets through.
pub proof fn lemma_locked_vault_stands_still(vault: VaultAccount, ops: Seq<Operation>)
    requires
        vault.state.locked,
        forall|i: int|
            0 <= i < ops.len() ==> !(#[trigger] ops[i]).toggle_by(vault.state.vault_authority),
    ensures
        run(vault, ops) == vault,
    decreases ops.len(),
{
    if ops.len() > 0 {
        let earlier = ops.drop_last();
        assert forall|i: int| 0 <= i < earlier.len() implies !(#[trigger] earlier[i]).toggle_by(
            vault.state.vault_authority,
        ) by {
            assert(earlier[i] == ops[i]);
        }
        lemma_locked_vault_stands_still(vault, earlier);
        assert(!ops[ops.len() - 1].toggle_by(vault.state.vault_authority));
    }
}

/// A vault that holds at least `floor` still does after any calls in which
/// every withdrawal is made with a survival floor of at least `floor`.
pub proof fn lemma_vault_survives(vault: VaultAccount, ops: Seq<Operation>, floor: u64)
    requires
        vault.lamports >= floor,
        forall|i: int| 0 <= i < ops.len() ==> (#[trigger] ops[i]).respects_floor(floor),
    ensures
        run(vault, ops).lamports >= floor,
    decreases ops.len(),
{
    if ops.len() > 0 {
        let earlier = ops.drop_last();
        assert forall|i: int| 0 <= i < earlier.len() implies (#[trigger] earlier[i]).respects_floor(
            floor,
        ) by {
            assert(earlier[i] == ops[i]);
        }
        lemma_vault_survives(vault, earlier, floor);
        assert(ops[ops.len() - 1].respects_floor(floor));
    }
}

/// A lock set between a deposit and a withdrawal holds the withdrawal back
/// until it is released. After a deposit of `paid_in`, a toggle by the
/// authority locks the vault; the authority's withdrawal of `paid_out` then
/// fails and changes nothing; a second toggle unlocks the vault; the same
/// withdrawal then succeeds, and the vault ends with what it had, plus
/// `paid_in`, minus `paid_out`.
pub proof fn lemma_lock_holds_back_withdrawal(
    vault: VaultAccount,
    user: Wallet,
    owner: Wallet,
    paid_in: u64,
    paid_out: u64,
    rent_exempt: u64,
)
    requires
        !vault.state.locked,
        owner.key == vault.state.vault_authority,
        user.lamports >= paid_in,
        vault.lamports + paid_in <= u64::MAX,
        vault.lamports + paid_in >= paid_out,
        vault.lamports + paid_in - paid_out >= rent_exempt,
        owner.lamports + paid_out <= u64::MAX,
    ensures
        ({
            let deposited = step(vault, Operation::Deposit { user, amount: paid_in });
            let locked = step(deposited, Operation::ToggleLock { caller: owner });
            let early = Withdraw { vault_authority: owner, vault: locked };
            let released = step(early.after(paid_out, rent_exempt).vault, Operation::ToggleLock { caller: owner });
            let late = Withdraw { vault_authority: owner, vault: released };
            &&& deposited.lamports == vault.lamports + paid_in
            &&& locked.state.locked
            &&& early.outcome(paid_out, rent_exempt) == Err::<WithdrawEvent, VaultError>(
                VaultError::VaultLocked,
            )
            &&& early.after(paid_out, rent_exempt) == early
            &&& !released.state.locked
            &&& late.outcome(paid_out, rent_exempt) is Ok
            &&& late.after(paid_out, rent_exempt).vault.lamports == vault.lamports + paid_in
                - paid_out
            &&& late.after(paid_out, rent_exempt).vault_authority.lamports == owner.lamports
                + paid_out
        }),
{
}

} // verus!
