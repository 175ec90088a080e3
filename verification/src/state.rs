//! The vault record and the accounts an operation works on.

use vstd::prelude::*;
use crate::identity::Identity;

verus! {

/// The vault's own record. The balance is not part of it: the ledger keeps
/// that, as it does for every account.
#[derive(Clone, Copy, Debug, PartialEq, Eq)]
pub struct Vault {
    /// The one principal that may withdraw and may toggle the lock.
    pub vault_authority: Identity,
    /// While set, deposits and withdrawals are turned down.
    pub locked: bool,
}

/// An ordinary account as the ledger shows it: its name and what it holds.
#[derive(Clone, Copy, Debug, PartialEq, Eq)]
pub struct Wallet {
    pub key: Identity,
    pub lamports: u64,
}

/// The vault's account as the ledger shows it: its name, what it holds, and
/// the record stored in it.
#[derive(Clone, Copy, Debug, PartialEq, Eq)]
pub struct VaultAccount {
    pub key: Identity,
    pub lamports: u64,
    pub state: Vault,
}

impl Wallet {
    /// This wallet holding `lamports` instead of what it holds now.
    pub open spec fn holding(self, lamports: u64) -> Wallet {
        Wallet { key: self.key, lamports }
    }
}

impl VaultAccount {
    /// This account holding `lamports` instead of what it holds now.
    pub open spec fn holding(self, lamports: u64) -> VaultAccount {
        VaultAccount { key: self.key, lamports, state: self.state }
    }

    /// This account with its lock set to `locked`.
    pub open spec fn with_lock(self, locked: bool) -> VaultAccount {
        VaultAccount {
            key: self.key,
            lamports: self.lamports,
            state: Vault { vault_authority: self.state.vault_authority, locked },
        }
    }

    /// Whether `caller` is this vault's authority.
    pub open spec fn governed_by(self, caller: Identity) -> bool {
        self.state.vault_authority == caller
    }
}

} // verus!
