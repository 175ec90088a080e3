//! Why a vault operation was turned down.

use vstd::prelude::*;

verus! {

/// The reason an operation on a vault failed. Every failure is final for the
/// call that met it and leaves the vault and all balances as they were.
#[derive(Clone, Copy, Debug, PartialEq, Eq, Structural)]
pub enum VaultError {
    /// A deposit or withdrawal was attempted while the vault was locked.
    VaultLocked,
    /// The paying account holds less than the requested amount.
    InsufficientBalance,
    /// The caller is not the vault's authority.
    Unauthorized,
    /// The withdrawal would leave the vault below the balance it needs to
    /// stay alive on the ledger. Despite the name this is not an arithmetic
    /// condition: it guards the account's survival floor.
    Overflow,
    /// The ledger turned down a transfer that had passed the vault's checks.
    TransferFailed,
}

} // verus!
