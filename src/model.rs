//! The ledger as a mathematical state machine: each operation is a function
//! from a model state and its inputs to the next state and a result.
use vstd::prelude::*;
use crate::error::VaultError;
use crate::identity::Identity;
use crate::state::{fresh_record, Location, Transfer, UserState, VaultState};

verus! {

/// The whole ledger: the pool record, once created, and the principals'
/// records in the order they were created.
pub struct LedgerModel {
    pub state: Option<VaultState>,
    pub records: Seq<UserState>,
}

/// The sum of the balances of `records`.
pub open spec fn sum_balances(records: Seq<UserState>) -> int
    decreases records.len(),
{
    if records.len() == 0 {
        0
    } else {
        sum_balances(records.drop_last()) + records.last().balance
    }
}

/// No two records share an owner.
pub open spec fn owners_unique(records: Seq<UserState>) -> bool {
    forall|i: int, j: int|
        0 <= i < records.len() && 0 <= j < records.len() && i != j ==> records[i].owner
            != records[j].owner
}

/// Position of the record owned by `who`, or -1 when there is none.
pub open spec fn index_of(records: Seq<UserState>, who: Identity) -> int {
    if exists|i: int| 0 <= i < records.len() && records[i].owner == who {
        choose|i: int| 0 <= i < records.len() && records[i].owner == who
    } else {
        -1
    }
}

/// The record of `who`, or the zeroed record it would start from.
pub open spec fn record_of(records: Seq<UserState>, who: Identity) -> UserState {
    let i = index_of(records, who);
    if i >= 0 {
        records[i]
    } else {
        fresh_record(who)
    }
}

/// Deposits minus withdrawals equals the sum of all claims.
pub open spec fn conserved(m: LedgerModel) -> bool {
    match m.state {
        None => true,
        Some(s) => s.total_deposited - s.total_withdrawn == sum_balances(m.records),
    }
}

impl LedgerModel {
    /// Owners are unique, no record exists before the pool ledger, and
    /// value is conserved.
    pub open spec fn wf(self) -> bool {
        &&& owners_unique(self.records)
        &&& (self.state is None ==> self.records.len() == 0)
        &&& conserved(self)
    }

    /// The balance of `who`; zero for a principal without a record.
    pub open spec fn balance_of(self, who: Identity) -> nat {
        record_of(self.records, who).balance as nat
    }
}

/// `records` with the record of `rec.owner` replaced by `rec`, or `rec` added
/// at the end when that owner had none.
pub open spec fn put_record(records: Seq<UserState>, rec: UserState) -> Seq<UserState> {
    let i = index_of(records, rec.owner);
    if i >= 0 {
        records.update(i, rec)
    } else {
        records.push(rec)
    }
}

/// Creating the pool ledger with `authority`.
pub open spec fn spec_initialize(m: LedgerModel, authority: Identity) -> (LedgerModel, Result<(), VaultError>) {
    match m.state {
        Some(_) => (m, Err(VaultError::AlreadyInitialized)),
        None => (
            LedgerModel {
                state: Some(VaultState { authority, total_deposited: 0, total_withdrawn: 0 }),
                records: m.records,
            },
            Ok(()),
        ),
    }
}

// ---- one operation on the pool record and one principal record ----

/// The checks of a deposit into `cur` that come before any value moves, and
/// the transfer: `amount` from the record's owner into the pool.
pub open spec fn deposit_request(s: VaultState, cur: UserState, amount: u64) -> Result<Transfer, VaultError> {
    if amount == 0 {
        Err(VaultError::InvalidAmount)
    } else if cur.balance + amount > u64::MAX || s.total_deposited + amount > u64::MAX {
        Err(VaultError::ArithmeticOverflow)
    } else {
        Ok(Transfer { from: Location::External(cur.owner), to: Location::Pool, amount })
    }
}

/// A deposit of `amount` into `cur` once the host reports whether the
/// transfer succeeded: the new pool record and principal record.
pub open spec fn deposit_step(s: VaultState, cur: UserState, amount: u64, transfer_ok: bool, now: i64) -> Result<
    (VaultState, UserState),
    VaultError,
> {
    if amount == 0 {
        Err(VaultError::InvalidAmount)
    } else if !transfer_ok {
        Err(VaultError::TransferFailed)
    } else if cur.balance + amount > u64::MAX || s.total_deposited + amount > u64::MAX {
        Err(VaultError::ArithmeticOverflow)
    } else {
        Ok(
            (
                VaultState {
                    authority: s.authority,
                    total_deposited: (s.total_deposited + amount) as u64,
                    total_withdrawn: s.total_withdrawn,
                },
                UserState {
                    owner: cur.owner,
                    balance: (cur.balance + amount) as u64,
                    last_deposit: now,
                    last_withdrawal: cur.last_withdrawal,
                },
            ),
        )
    }
}

/// The checks of a withdrawal by `user` from `cur` that come before any
/// value moves, and the transfer: `amount` from the pool to `user`.
pub open spec fn withdraw_request(s: VaultState, cur: UserState, user: Identity, amount: u64) -> Result<Transfer, VaultError> {
    if amount == 0 {
        Err(VaultError::InvalidAmount)
    } else if cur.owner != user {
        Err(VaultError::UnauthorizedWithdraw)
    } else if cur.balance < amount {
        Err(VaultError::InsufficientBalance)
    } else if s.total_withdrawn + amount > u64::MAX {
        Err(VaultError::ArithmeticOverflow)
    } else {
        Ok(Transfer { from: Location::Pool, to: Location::External(user), amount })
    }
}

/// A withdrawal of `amount` by `user` from `cur` once the host reports
/// whether the transfer succeeded: the new pool record and principal record.
pub open spec fn withdraw_step(
    s: VaultState,
    cur: UserState,
    user: Identity,
    amount: u64,
    transfer_ok: bool,
    now: i64,
) -> Result<(VaultState, UserState), VaultError> {
    if amount == 0 {
        Err(VaultError::InvalidAmount)
    } else if cur.owner != user {
        Err(VaultError::UnauthorizedWithdraw)
    } else if cur.balance < amount {
        Err(VaultError::InsufficientBalance)
    } else if !transfer_ok {
        Err(VaultError::TransferFailed)
    } else if s.total_withdrawn + amount > u64::MAX {
        Err(VaultError::ArithmeticOverflow)
    } else {
        Ok(
            (
                VaultState {
                    authority: s.authority,
                    total_deposited: s.total_deposited,
                    total_withdrawn: (s.total_withdrawn + amount) as u64,
                },
                UserState {
                    owner: cur.owner,
                    balance: (cur.balance - amount) as u64,
                    last_deposit: cur.last_deposit,
                    last_withdrawal: now,
                },
            ),
        )
    }
}

/// The check of a recovery by `caller` that comes before any value moves,
/// and the transfer: `amount` from the pool to the authority. No balance
/// bounds the amount.
pub open spec fn recover_request(s: VaultState, caller: Identity, amount: u64) -> Result<Transfer, VaultError> {
    if caller != s.authority {
        Err(VaultError::UnauthorizedRecovery)
    } else {
        Ok(Transfer { from: Location::Pool, to: Location::External(s.authority), amount })
    }
}

/// The result of a recovery by `caller`. It changes no record: the
/// recovered value is outside the ledger's accounting.
pub open spec fn recover_result(s: VaultState, caller: Identity, transfer_ok: bool) -> Result<(), VaultError> {
    if caller != s.authority {
        Err(VaultError::UnauthorizedRecovery)
    } else if !transfer_ok {
        Err(VaultError::TransferFailed)
    } else {
        Ok(())
    }
}

// ---- operations on the whole ledger ----

/// Applies a step on the record of `who`: a refused step changes nothing.
pub open spec fn apply(m: LedgerModel, step: Result<(VaultState, UserState), VaultError>) -> (
    LedgerModel,
    Result<(), VaultError>,
) {
    match step {
        Err(e) => (m, Err(e)),
        Ok((st, rec)) => (LedgerModel { state: Some(st), records: put_record(m.records, rec) }, Ok(())),
    }
}

/// The checks of a deposit by `user` that come before the transfer, and the transfer.
pub open spec fn spec_deposit_request(m: LedgerModel, user: Identity, amount: u64) -> Result<Transfer, VaultError> {
    match m.state {
        None => Err(VaultError::NotInitialized),
        Some(s) => deposit_request(s, record_of(m.records, user), amount),
    }
}

/// A deposit of `amount` by `user`, once the host reports whether the
/// transfer into the pool succeeded.
pub open spec fn spec_deposit(
    m: LedgerModel,
    user: Identity,
    amount: u64,
    transfer_ok: bool,
    now: i64,
) -> (LedgerModel, Result<(), VaultError>) {
    match m.state {
        None => (m, Err(VaultError::NotInitialized)),
        Some(s) => apply(m, deposit_step(s, record_of(m.records, user), amount, transfer_ok, now)),
    }
}

/// The checks of a withdrawal by `user` from the record of `target` that
/// come before the transfer, and the transfer.
pub open spec fn spec_withdraw_request(
    m: LedgerModel,
    user: Identity,
    target: Identity,
    amount: u64,
) -> Result<Transfer, VaultError> {
    match m.state {
        None => Err(VaultError::NotInitialized),
        Some(s) => withdraw_request(s, record_of(m.records, target), user, amount),
    }
}

/// A withdrawal of `amount` by `user` from the record of `target`, once the
/// host reports whether the transfer out of the pool succeeded.
pub open spec fn spec_withdraw(
    m: LedgerModel,
    user: Identity,
    target: Identity,
    amount: u64,
    transfer_ok: bool,
    now: i64,
) -> (LedgerModel, Result<(), VaultError>) {
    match m.state {
        None => (m, Err(VaultError::NotInitialized)),
        Some(s) => apply(m, withdraw_step(s, record_of(m.records, target), user, amount, transfer_ok, now)),
    }
}

/// The check of a recovery by `caller` before the transfer, and the transfer.
pub open spec fn spec_recover_request(m: LedgerModel, caller: Identity, amount: u64) -> Result<Transfer, VaultError> {
    match m.state {
        None => Err(VaultError::NotInitialized),
        Some(s) => recover_request(s, caller, amount),
    }
}

/// The result of a recovery by `caller`; the ledger does not change.
pub open spec fn spec_recover(m: LedgerModel, caller: Identity, transfer_ok: bool) -> Result<(), VaultError> {
    match m.state {
        None => Err(VaultError::NotInitialized),
        Some(s) => recover_result(s, caller, transfer_ok),
    }
}

// ---- lemmas on the record sequence ----

pub proof fn lemma_index_of_found(records: Seq<UserState>, i: int)
    requires
        owners_unique(records),
        0 <= i < records.len(),
    ensures
        index_of(records, records[i].owner) == i,
{
    let who = records[i].owner;
    assert(exists|j: int| 0 <= j < records.len() && records[j].owner == who);
}

pub proof fn lemma_index_of_absent(records: Seq<UserState>, who: Identity)
    requires
        forall|j: int| 0 <= j < records.len() ==> records[j].owner != who,
    ensures
        index_of(records, who) == -1,
{
}

pub proof fn lemma_index_of_range(records: Seq<UserState>, who: Identity)
    ensures
        index_of(records, who) >= 0 ==> (0 <= index_of(records, who) < records.len()
            && records[index_of(records, who)].owner == who),
        index_of(records, who) < 0 ==> index_of(records, who) == -1 && (forall|j: int|
            0 <= j < records.len() ==> records[j].owner != who),
{
}

pub proof fn lemma_record_of_owner(records: Seq<UserState>, who: Identity)
    ensures
        record_of(records, who).owner == who,
{
    lemma_index_of_range(records, who);
}

pub proof fn lemma_sum_update(records: Seq<UserState>, i: int, rec: UserState)
    requires
        0 <= i < records.len(),
    ensures
        sum_balances(records.update(i, rec)) == sum_balances(records) - records[i].balance
            + rec.balance,
    decreases records.len(),
{
    let u = records.update(i, rec);
    if i == records.len() - 1 {
        assert(u.drop_last() =~= records.drop_last());
    } else {
        lemma_sum_update(records.drop_last(), i, rec);
        assert(u.drop_last() =~= records.drop_last().update(i, rec));
    }
}

pub proof fn lemma_sum_push(records: Seq<UserState>, rec: UserState)
    ensures
        sum_balances(records.push(rec)) == sum_balances(records) + rec.balance,
{
    assert(records.push(rec).drop_last() =~= records);
}

/// Putting a record owned by `rec.owner`: owners stay unique, the sum moves
/// by the change of that owner's balance, every other owner keeps its record,
/// and `rec.owner` now has `rec`.
pub proof fn lemma_put_record(records: Seq<UserState>, rec: UserState)
    requires
        owners_unique(records),
    ensures
        owners_unique(put_record(records, rec)),
        sum_balances(put_record(records, rec)) == sum_balances(records) - record_of(
            records,
            rec.owner,
        ).balance + rec.balance,
        record_of(put_record(records, rec), rec.owner) == rec,
        forall|who: Identity|
            who != rec.owner ==> #[trigger] record_of(put_record(records, rec), who)
                == record_of(records, who),
{
    let n = put_record(records, rec);
    let i = index_of(records, rec.owner);
    lemma_index_of_range(records, rec.owner);
    if i >= 0 {
        lemma_sum_update(records, i, rec);
    } else {
        lemma_sum_push(records, rec);
    }
    assert(owners_unique(n));
    if i >= 0 {
        lemma_index_of_found(n, i);
    } else {
        lemma_index_of_found(n, records.len() as int);
    }
    assert forall|who: Identity| who != rec.owner implies #[trigger] record_of(n, who)
        == record_of(records, who) by {
        lemma_index_of_range(records, who);
        let k = index_of(records, who);
        if k >= 0 {
            lemma_index_of_found(n, k);
        } else {
            assert forall|j: int| 0 <= j < n.len() implies n[j].owner != who by {
                if j < records.len() && j != i {
                } else {
                }
            }
            lemma_index_of_absent(n, who);
        }
    }
}

} // verus!
