//! The ways an operation on the ledger can fail.
use vstd::prelude::*;

verus! {

/// Why an operation was refused. A refused operation leaves every record as it was.
#[derive(Clone, Copy, Debug, PartialEq, Eq, Structural)]
pub enum VaultError {
    /// The amount of a deposit or a withdrawal was zero.
    InvalidAmount,
    /// A withdrawal asked for more than the record's balance.
    InsufficientBalance,
    /// The caller does not own the record it tried to withdraw from.
    UnauthorizedWithdraw,
    /// The caller of a recovery is not the pool's authority.
    UnauthorizedRecovery,
    /// A counter or a balance would exceed the range of `u64`.
    ArithmeticOverflow,
    /// A balance would fall below zero.
    ArithmeticUnderflow,
    /// The host could not move the value.
    TransferFailed,
    /// The pool ledger has already been created.
    AlreadyInitialized,
    /// The pool ledger has not been created yet.
    NotInitialized,
}

} // verus!
