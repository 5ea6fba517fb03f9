//! Properties of the ledger over single operations and over any sequence of
//! them, proved on the model that every operation of `Vault` follows.
use vstd::prelude::*;
use crate::error::VaultError;
use crate::identity::Identity;
use crate::model::{
    deposit_step, lemma_put_record, lemma_record_of_owner, record_of,
    spec_deposit, spec_deposit_request, spec_initialize, spec_withdraw, spec_withdraw_request,
    sum_balances, withdraw_step, LedgerModel,
};

verus! {

/// One operation with the outcome of its transfer, as the host runs it.
pub enum Instruction {
    InitializeVault { authority: Identity },
    BuyIn { user: Identity, amount: u64, transfer_ok: bool, now: i64 },
    LeaveTable { user: Identity, user_state: Identity, amount: u64, transfer_ok: bool, now: i64 },
    RecoverFunds { authority: Identity, transfer_ok: bool },
}

/// The state after one operation.
pub open spec fn step(m: LedgerModel, ins: Instruction) -> LedgerModel {
    match ins {
        Instruction::InitializeVault { authority } => spec_initialize(m, authority).0,
        Instruction::BuyIn { user, amount, transfer_ok, now } => spec_deposit(
            m,
            user,
            amount,
            transfer_ok,
            now,
        ).0,
        Instruction::LeaveTable { user, user_state, amount, transfer_ok, now } => spec_withdraw(
            m,
            user,
            user_state,
            amount,
            transfer_ok,
            now,
        ).0,
        Instruction::RecoverFunds { authority, transfer_ok } => m,
    }
}

/// The state after running `ops` in order from `m`.
pub open spec fn run(m: LedgerModel, ops: Seq<Instruction>) -> LedgerModel
    decreases ops.len(),
{
    if ops.len() == 0 {
        m
    } else {
        step(run(m, ops.drop_last()), ops.last())
    }
}

/// Neither counter of the pool has gone down from `a` to `b`, and a pool
/// record that existed still exists.
pub open spec fn counters_grow(a: LedgerModel, b: LedgerModel) -> bool {
    a.state matches Some(s) ==> (b.state matches Some(t) && s.total_deposited <= t.total_deposited
        && s.total_withdrawn <= t.total_withdrawn)
}

/// Every operation keeps the ledger well formed, and so conserves value,
/// and lets no counter of the pool go down.
pub proof fn lemma_step(m: LedgerModel, ins: Instruction)
    requires
        m.wf(),
    ensures
        step(m, ins).wf(),
        counters_grow(m, step(m, ins)),
{
    if let Some(s) = m.state {
        match ins {
            Instruction::BuyIn { user, amount, transfer_ok, now } => {
                if let Ok((st, rec)) = deposit_step(s, record_of(m.records, user), amount, transfer_ok, now) {
                    lemma_record_of_owner(m.records, user);
                    lemma_put_record(m.records, rec);
                }
            },
            Instruction::LeaveTable { user, user_state, amount, transfer_ok, now } => {
                if let Ok((st, rec)) = withdraw_step(
                    s,
                    record_of(m.records, user_state),
                    user,
                    amount,
                    transfer_ok,
                    now,
                ) {
                    lemma_record_of_owner(m.records, user_state);
                    lemma_put_record(m.records, rec);
                }
            },
            _ => {},
        }
    }
}

/// Conservation: from a well-formed ledger, after any sequence of
/// operations, deposits minus withdrawals equals the sum of all balances.
pub proof fn lemma_conservation(m: LedgerModel, ops: Seq<Instruction>)
    requires
        m.wf(),
    ensures
        run(m, ops).wf(),
        run(m, ops).state matches Some(s) ==> s.total_deposited - s.total_withdrawn
            == sum_balances(run(m, ops).records),
    decreases ops.len(),
{
    if ops.len() > 0 {
        lemma_conservation(m, ops.drop_last());
        lemma_step(run(m, ops.drop_last()), ops.last());
    }
}

/// Monotonic counters: across any sequence of operations from a well-formed
/// ledger, neither the deposit nor the withdrawal counter goes down.
pub proof fn lemma_counters_monotonic(m: LedgerModel, ops: Seq<Instruction>)
    requires
        m.wf(),
    ensures
        counters_grow(m, run(m, ops)),
    decreases ops.len(),
{
    if ops.len() > 0 {
        lemma_counters_monotonic(m, ops.drop_last());
        lemma_conservation(m, ops.drop_last());
        lemma_step(run(m, ops.drop_last()), ops.last());
    }
}

/// Initialization happens once: on a ledger without a pool record the first
/// call succeeds, the second fails with `AlreadyInitialized` and leaves the
/// state the first one made.
pub proof fn lemma_initialize_once(m: LedgerModel, first: Identity, second: Identity)
    requires
        m.state is None,
    ensures
        spec_initialize(m, first).1 is Ok,
        spec_initialize(spec_initialize(m, first).0, second).1 == Err::<(), VaultError>(
            VaultError::AlreadyInitialized,
        ),
        spec_initialize(spec_initialize(m, first).0, second).0 == spec_initialize(m, first).0,
{
}

/// Authorization isolation: a principal that withdraws a positive amount
/// against another principal's record fails with `UnauthorizedWithdraw`,
/// whatever the transfer did, and the other principal's balance stays.
pub proof fn lemma_withdraw_isolation(
    m: LedgerModel,
    a: Identity,
    b: Identity,
    amount: u64,
    transfer_ok: bool,
    now: i64,
)
    requires
        m.state is Some,
        a != b,
        amount > 0,
    ensures
        spec_withdraw(m, a, b, amount, transfer_ok, now).1 == Err::<(), VaultError>(
            VaultError::UnauthorizedWithdraw,
        ),
        spec_withdraw(m, a, b, amount, transfer_ok, now).0.balance_of(b) == m.balance_of(b),
{
}

/// A request decides its commit: a refused request is refused in the same
/// way when committed with a successful transfer, and an accepted one then
/// succeeds.
pub proof fn lemma_request_decides_commit(
    m: LedgerModel,
    user: Identity,
    target: Identity,
    amount: u64,
    now: i64,
)
    ensures
        spec_deposit_request(m, user, amount) matches Err(e) ==> spec_deposit(
            m,
            user,
            amount,
            true,
            now,
        ).1 == Err::<(), VaultError>(e),
        spec_deposit_request(m, user, amount) is Ok ==> spec_deposit(m, user, amount, true, now).1 is Ok,
        spec_withdraw_request(m, user, target, amount) matches Err(e) ==> spec_withdraw(
            m,
            user,
            target,
            amount,
            true,
            now,
        ).1 == Err::<(), VaultError>(e),
        spec_withdraw_request(m, user, target, amount) is Ok ==> spec_withdraw(
            m,
            user,
            target,
            amount,
            true,
            now,
        ).1 is Ok,
{
}

} // verus!
