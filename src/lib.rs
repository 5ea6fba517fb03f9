//! A custodial balance ledger: principals deposit value into a shared pool,
//! each principal's claim is tracked in a record of its own, and withdrawals
//! are allowed up to that claim. The pool's authority may sweep value out of
//! the pool without touching any claim.
//!
//! The library decides; the host moves value. Every operation is split into a
//! request (validate and stage, name the transfer to perform) and a commit
//! (apply the staged change once the host reports how the transfer went).
//!
//! Deposits minus withdrawals always equals the sum of all balances. A
//! recovery by the authority changes no record and no counter: the value it
//! moves is outside the ledger's accounting, so after one the pool may hold
//! less than the claims on it.
pub mod error;
pub mod identity;
pub mod laws;
pub mod model;
pub mod ops;
pub mod state;
pub mod vault;

pub use error::VaultError;
pub use identity::Identity;
pub use ops::{
    buy_in, buy_in_transfer, initialize_vault, leave_table, leave_table_transfer, recover_funds,
    recover_funds_transfer,
};
pub use state::{
    BuyIn, InitializeVault, LeaveTable, Location, RecoverFunds, Transfer, UserState, VaultState,
};
pub use vault::Vault;
