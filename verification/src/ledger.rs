//! Moving balance between two accounts: all of it or none.

use vstd::prelude::*;

verus! {

/// Why a transfer could not be made.
#[derive(Clone, Copy, Debug, PartialEq, Eq, Structural)]
pub enum TransferError {
    /// The paying side holds less than the amount.
    InsufficientFunds,
    /// The receiving side cannot hold that much more.
    BalanceOverflow,
}

/// What a transfer of `amount` from a balance `from` to a balance `to` comes
/// to: the paying side is looked at first.
pub open spec fn transfer_outcome(from: u64, to: u64, amount: u64) -> Result<(), TransferError> {
    if from < amount {
        Err(TransferError::InsufficientFunds)
    } else if to + amount > u64::MAX {
        Err(TransferError::BalanceOverflow)
    } else {
        Ok(())
    }
}

/// Takes `amount` from `from` and adds it to `to` in one step. When it cannot
/// do both it does neither, and says why.
pub fn transfer(from: &mut u64, to: &mut u64, amount: u64) -> (r: Result<(), TransferError>)
    ensures
        r == transfer_outcome(*old(from), *old(to), amount),
        r is Ok ==> *final(from) == *old(from) - amount && *final(to) == *old(to) + amount,
        r is Err ==> *final(from) == *old(from) && *final(to) == *old(to),
{
    if *from < amount {
        return Err(TransferError::InsufficientFunds);
    }
    if amount > u64::MAX - *to {
        return Err(TransferError::BalanceOverflow);
    }
    *from = *from - amount;
    *to = *to + amount;
    Ok(())
}

} // verus!
