//! A custodial vault: a guarded account that takes deposits from anyone,
//! pays out only to its authority, and can be frozen by that authority.

pub mod error;
pub mod events;
pub mod history;
pub mod identity;
pub mod instructions;
pub mod ledger;
pub mod state;
pub mod system_program;
