//! The two persistent records, the requests that act on them, and the value
//! transfers the host is asked to carry out.
use vstd::prelude::*;
use crate::identity::Identity;

verus! {

/// The pool ledger: one per system, created once.
#[derive(Clone, Copy, Debug)]
pub struct VaultState {
    /// The only principal allowed to recover funds from the pool.
    pub authority: Identity,
    /// All value ever deposited.
    pub total_deposited: u64,
    /// All value ever withdrawn by principals.
    pub total_withdrawn: u64,
}

/// The ledger of one principal, created on its first deposit.
#[derive(Clone, Copy, Debug)]
pub struct UserState {
    /// The principal this record belongs to; it never changes.
    pub owner: Identity,
    /// What the owner may still withdraw.
    pub balance: u64,
    /// Time of the latest deposit (zero before any).
    pub last_deposit: i64,
    /// Time of the latest withdrawal (zero before any).
    pub last_withdrawal: i64,
}

/// The record a principal has before its first deposit.
pub open spec fn fresh_record(owner: Identity) -> UserState {
    UserState { owner, balance: 0, last_deposit: 0, last_withdrawal: 0 }
}

impl UserState {
    /// A zeroed record for `owner`.
    pub fn fresh(owner: Identity) -> (r: UserState)
        ensures
            r == fresh_record(owner),
    {
        UserState { owner, balance: 0, last_deposit: 0, last_withdrawal: 0 }
    }
}

/// A place that holds value.
#[derive(Clone, Copy, Debug)]
pub enum Location {
    /// The pool's own holding location, controlled by the system.
    Pool,
    /// The external holding location of a principal.
    External(Identity),
}

/// A movement of value the host must carry out atomically.
#[derive(Clone, Copy, Debug)]
pub struct Transfer {
    pub from: Location,
    pub to: Location,
    pub amount: u64,
}

/// Request to create the pool ledger; the signer becomes its authority.
#[derive(Clone, Copy, Debug)]
pub struct InitializeVault {
    pub authority: Identity,
}

/// Request to deposit value, signed by `user`.
#[derive(Clone, Copy, Debug)]
pub struct BuyIn {
    pub user: Identity,
}

/// Request to withdraw value, signed by `user`, from the record that
/// belongs to `user_state`.
#[derive(Clone, Copy, Debug)]
pub struct LeaveTable {
    pub user: Identity,
    pub user_state: Identity,
}

/// Request to recover value from the pool, signed by `authority`.
#[derive(Clone, Copy, Debug)]
pub struct RecoverFunds {
    pub authority: Identity,
}

} // verus!
