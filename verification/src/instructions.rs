//! The three operations on a vault.

pub mod deposit;
pub mod toggle_lock;
pub mod withdraw;

pub use deposit::{Deposit, DepositOrder, _deposit};
pub use toggle_lock::{ToggleLock, _toggle_lock};
pub use withdraw::{Withdraw, _withdraw};
