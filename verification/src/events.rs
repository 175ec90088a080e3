//! What a successful operation announces. An operation hands back exactly one
//! event when it succeeds and none when it fails.

use vstd::prelude::*;
use crate::identity::Identity;

verus! {

/// `amount` went from `user` into `vault`.
#[derive(Clone, Copy, Debug, PartialEq, Eq)]
pub struct DepositEvent {
    pub vault: Identity,
    pub user: Identity,
    pub amount: u64,
}

/// `amount` went out of `vault` to its authority.
#[derive(Clone, Copy, Debug, PartialEq, Eq)]
pub struct WithdrawEvent {
    pub vault: Identity,
    pub vault_authority: Identity,
    pub amount: u64,
}

/// The authority set the lock of `vault` to `locked`.
#[derive(Clone, Copy, Debug, PartialEq, Eq)]
pub struct ToggleLockEvent {
    pub vault: Identity,
    pub vault_authority: Identity,
    pub locked: bool,
}

} // verus!
