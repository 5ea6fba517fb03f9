//! The operations on the pool record and the one principal record they
//! touch. Each operation has a request, which checks what can be checked
//! before value moves and names the transfer, and a commit, which takes the
//! transfer's outcome and changes both records, or neither.
use vstd::prelude::*;
use crate::error::VaultError;
use crate::identity::Identity;
use crate::model::{
    deposit_request, deposit_step, recover_request, recover_result, withdraw_request,
    withdraw_step,
};
use crate::state::{Location, Transfer, UserState, VaultState};

verus! {

/// Creates the pool record in `slot` with `authority` and both counters at
/// zero; refused when the slot already holds one.
pub fn initialize_vault(slot: &mut Option<VaultState>, authority: Identity) -> (r: Result<(), VaultError>)
    ensures
        old(slot).is_some() ==> r == Err::<(), VaultError>(VaultError::AlreadyInitialized) && *final(slot) == *old(slot),
        old(slot).is_none() ==> r == Ok::<(), VaultError>(()) && *final(slot) == Some(
            VaultState { authority, total_deposited: 0, total_withdrawn: 0 },
        ),
{
    if slot.is_some() {
        return Err(VaultError::AlreadyInitialized);
    }
    *slot = Some(VaultState { authority, total_deposited: 0, total_withdrawn: 0 });
    Ok(())
}

/// The request of a deposit of `amount` into `user_state`.
pub fn buy_in_transfer(state: &VaultState, user_state: &UserState, amount: u64) -> (r: Result<Transfer, VaultError>)
    ensures
        r == deposit_request(*state, *user_state, amount),
{
    if amount == 0 {
        return Err(VaultError::InvalidAmount);
    }
    if user_state.balance.checked_add(amount).is_none() || state.total_deposited.checked_add(amount).is_none() {
        return Err(VaultError::ArithmeticOverflow);
    }
    Ok(Transfer { from: Location::External(user_state.owner), to: Location::Pool, amount })
}

/// Commits a deposit of `amount` into `user_state` at time `now`, given
/// whether the transfer into the pool succeeded: the balance and the pool's
/// deposit counter grow by `amount`. On an error neither record changes.
pub fn buy_in(
    state: &mut VaultState,
    user_state: &mut UserState,
    amount: u64,
    transfer_ok: bool,
    now: i64,
) -> (r: Result<(), VaultError>)
    ensures
        deposit_step(*old(state), *old(user_state), amount, transfer_ok, now) matches Ok((s, u))
            ==> r == Ok::<(), VaultError>(()) && *final(state) == s && *final(user_state) == u,
        deposit_step(*old(state), *old(user_state), amount, transfer_ok, now) matches Err(e)
            ==> r == Err::<(), VaultError>(e) && *final(state) == *old(state) && *final(user_state)
            == *old(user_state),
{
    if amount == 0 {
        return Err(VaultError::InvalidAmount);
    }
    if !transfer_ok {
        return Err(VaultError::TransferFailed);
    }
    let balance = match user_state.balance.checked_add(amount) {
        None => return Err(VaultError::ArithmeticOverflow),
        Some(b) => b,
    };
    let total = match state.total_deposited.checked_add(amount) {
        None => return Err(VaultError::ArithmeticOverflow),
        Some(t) => t,
    };
    user_state.balance = balance;
    user_state.last_deposit = now;
    state.total_deposited = total;
    Ok(())
}

/// The request of a withdrawal of `amount` by `user` from `user_state`.
pub fn leave_table_transfer(state: &VaultState, user_state: &UserState, user: &Identity, amount: u64) -> (r: Result<
    Transfer,
    VaultError,
>)
    ensures
        r == withdraw_request(*state, *user_state, *user, amount),
{
    if amount == 0 {
        return Err(VaultError::InvalidAmount);
    }
    if !user_state.owner.same_as(user) {
        return Err(VaultError::UnauthorizedWithdraw);
    }
    if user_state.balance < amount {
        return Err(VaultError::InsufficientBalance);
    }
    if state.total_withdrawn.checked_add(amount).is_none() {
        return Err(VaultError::ArithmeticOverflow);
    }
    Ok(Transfer { from: Location::Pool, to: Location::External(*user), amount })
}

/// Commits a withdrawal of `amount` by `user` from `user_state` at time
/// `now`, given whether the transfer out of the pool succeeded. Only the
/// record's owner may draw on it, and never more than its balance: the
/// balance shrinks and the pool's withdrawal counter grows by `amount`. On an
/// error neither record changes.
pub fn leave_table(
    state: &mut VaultState,
    user_state: &mut UserState,
    user: &Identity,
    amount: u64,
    transfer_ok: bool,
    now: i64,
) -> (r: Result<(), VaultError>)
    ensures
        withdraw_step(*old(state), *old(user_state), *user, amount, transfer_ok, now) matches Ok((s, u))
            ==> r == Ok::<(), VaultError>(()) && *final(state) == s && *final(user_state) == u,
        withdraw_step(*old(state), *old(user_state), *user, amount, transfer_ok, now) matches Err(e)
            ==> r == Err::<(), VaultError>(e) && *final(state) == *old(state) && *final(user_state)
            == *old(user_state),
{
    if amount == 0 {
        return Err(VaultError::InvalidAmount);
    }
    if !user_state.owner.same_as(user) {
        return Err(VaultError::UnauthorizedWithdraw);
    }
    if user_state.balance < amount {
        return Err(VaultError::InsufficientBalance);
    }
    let balance = match user_state.balance.checked_sub(amount) {
        None => return Err(VaultError::ArithmeticUnderflow),
        Some(b) => b,
    };
    if !transfer_ok {
        return Err(VaultError::TransferFailed);
    }
    let total = match state.total_withdrawn.checked_add(amount) {
        None => return Err(VaultError::ArithmeticOverflow),
        Some(t) => t,
    };
    user_state.balance = balance;
    user_state.last_withdrawal = now;
    state.total_withdrawn = total;
    Ok(())
}

/// The request of a recovery of `amount` by `authority`.
pub fn recover_funds_transfer(state: &VaultState, authority: &Identity, amount: u64) -> (r: Result<Transfer, VaultError>)
    ensures
        r == recover_request(*state, *authority, amount),
{
    if !authority.same_as(&state.authority) {
        return Err(VaultError::UnauthorizedRecovery);
    }
    Ok(Transfer { from: Location::Pool, to: Location::External(state.authority), amount })
}

/// The outcome of a recovery by `authority`, given whether the transfer
/// succeeded. No record changes.
pub fn recover_funds(state: &VaultState, authority: &Identity, transfer_ok: bool) -> (r: Result<(), VaultError>)
    ensures
        r == recover_result(*state, *authority, transfer_ok),
{
    if !authority.same_as(&state.authority) {
        return Err(VaultError::UnauthorizedRecovery);
    }
    if !transfer_ok {
        return Err(VaultError::TransferFailed);
    }
    Ok(())
}

} // verus!
