//! The executable ledger: the pool record and the principals' records, with
//! one request and one commit per operation.
use vstd::prelude::*;
use crate::error::VaultError;
use crate::identity::Identity;
use crate::model::{
    index_of, lemma_index_of_absent, lemma_index_of_found, lemma_put_record, lemma_record_of_owner,
    owners_unique, put_record, record_of, spec_deposit, spec_deposit_request, spec_initialize,
    spec_recover, spec_recover_request, spec_withdraw, spec_withdraw_request, LedgerModel,
};
use crate::ops;
use crate::state::{
    BuyIn, InitializeVault, LeaveTable, RecoverFunds, Transfer, UserState, VaultState,
};

verus! {

/// The pool ledger, once created, and one record per principal that has
/// deposited.
pub struct Vault {
    state: Option<VaultState>,
    users: Vec<UserState>,
}

impl View for Vault {
    type V = LedgerModel;

    closed spec fn view(&self) -> LedgerModel {
        LedgerModel { state: self.state, records: self.users@ }
    }
}

impl Vault {
    /// The ledger is well formed: see `LedgerModel::wf`. Every operation
    /// keeps it so.
    pub open spec fn wf(&self) -> bool {
        self@.wf()
    }

    /// A ledger whose pool record does not exist yet.
    pub fn new() -> (r: Vault)
        ensures
            r.wf(),
            r@.state is None,
            r@.records.len() == 0,
    {
        Vault { state: None, users: Vec::new() }
    }

    /// Position of the record owned by `who`.
    fn find(&self, who: &Identity) -> (r: Option<usize>)
        requires
            owners_unique(self@.records),
        ensures
            r matches Some(i) ==> i < self@.records.len() && index_of(self@.records, *who) == i,
            r is None ==> index_of(self@.records, *who) == -1,
    {
        let mut i: usize = 0;
        while i < self.users.len()
            invariant
                owners_unique(self@.records),
                0 <= i <= self.users@.len(),
                forall|j: int| 0 <= j < i ==> self.users@[j].owner != *who,
            decreases self.users@.len() - i,
        {
            if self.users[i].owner.same_as(who) {
                proof {
                    lemma_index_of_found(self.users@, i as int);
                }
                return Some(i);
            }
            i = i + 1;
        }
        proof {
            lemma_index_of_absent(self.users@, *who);
        }
        None
    }

    /// The record of `who`, or a zeroed one when `who` has none.
    fn current_record(&self, who: &Identity) -> (r: UserState)
        requires
            self.wf(),
        ensures
            r == record_of(self@.records, *who),
    {
        match self.find(who) {
            Some(i) => self.users[i],
            None => UserState::fresh(*who),
        }
    }

    /// Replaces the record of `rec.owner` by `rec`, or adds it.
    fn put(&mut self, rec: UserState)
        requires
            owners_unique(old(self)@.records),
        ensures
            final(self)@.records == put_record(old(self)@.records, rec),
            final(self)@.state == old(self)@.state,
    {
        match self.find(&rec.owner) {
            Some(i) => self.users.set(i, rec),
            None => self.users.push(rec),
        }
    }

    /// The pool record, once created.
    pub fn vault_state(&self) -> (r: Option<VaultState>)
        ensures
            r == self@.state,
    {
        self.state
    }

    /// The record of `who`, if `who` has deposited.
    pub fn user_state(&self, who: &Identity) -> (r: Option<UserState>)
        requires
            self.wf(),
        ensures
            index_of(self@.records, *who) >= 0 ==> r == Some(record_of(self@.records, *who)),
            index_of(self@.records, *who) < 0 ==> r is None,
    {
        match self.find(who) {
            Some(i) => Some(self.users[i]),
            None => None,
        }
    }

    /// What `who` may withdraw; zero without a record.
    pub fn balance_of(&self, who: &Identity) -> (r: u64)
        requires
            self.wf(),
        ensures
            r == self@.balance_of(*who),
    {
        self.current_record(who).balance
    }

    /// Creates the pool record with the signer as its authority and both
    /// counters at zero; refused once the record exists.
    pub fn initialize_vault(&mut self, ctx: &InitializeVault) -> (r: Result<(), VaultError>)
        requires
            old(self).wf(),
        ensures
            final(self).wf(),
            (final(self)@, r) == spec_initialize(old(self)@, ctx.authority),
    {
        ops::initialize_vault(&mut self.state, ctx.authority)
    }

    /// The checks of a deposit by `ctx.user` that come before any value moves,
    /// and the transfer the host must make: `amount` from the user into the pool.
    pub fn buy_in_transfer(&self, ctx: &BuyIn, amount: u64) -> (r: Result<Transfer, VaultError>)
        requires
            self.wf(),
        ensures
            r == spec_deposit_request(self@, ctx.user, amount),
    {
        let state = match self.state {
            None => return Err(VaultError::NotInitialized),
            Some(s) => s,
        };
        let cur = self.current_record(&ctx.user);
        ops::buy_in_transfer(&state, &cur, amount)
    }

    /// Records a deposit of `amount` by `ctx.user`, given whether the host's
    /// transfer into the pool succeeded, at time `now`. The user's record is
    /// created on its first deposit. On success the balance and the pool's
    /// deposit counter both grow by `amount`; on any error nothing changes.
    pub fn buy_in(&mut self, ctx: &BuyIn, amount: u64, transfer_ok: bool, now: i64) -> (r: Result<(), VaultError>)
        requires
            old(self).wf(),
        ensures
            final(self).wf(),
            (final(self)@, r) == spec_deposit(old(self)@, ctx.user, amount, transfer_ok, now),
    {
        let mut state = match self.state {
            None => return Err(VaultError::NotInitialized),
            Some(s) => s,
        };
        let mut rec = self.current_record(&ctx.user);
        proof {
            lemma_record_of_owner(self@.records, ctx.user);
        }
        let r = ops::buy_in(&mut state, &mut rec, amount, transfer_ok, now);
        if r.is_ok() {
            proof {
                lemma_put_record(self@.records, rec);
            }
            self.put(rec);
            self.state = Some(state);
        }
        r
    }

    /// The checks of a withdrawal by `ctx.user` from the record of
    /// `ctx.user_state` that come before any value moves, and the transfer the
    /// host must make: `amount` from the pool to the user.
    pub fn leave_table_transfer(&self, ctx: &LeaveTable, amount: u64) -> (r: Result<Transfer, VaultError>)
        requires
            self.wf(),
        ensures
            r == spec_withdraw_request(self@, ctx.user, ctx.user_state, amount),
    {
        let state = match self.state {
            None => return Err(VaultError::NotInitialized),
            Some(s) => s,
        };
        let cur = self.current_record(&ctx.user_state);
        ops::leave_table_transfer(&state, &cur, &ctx.user, amount)
    }

    /// Records a withdrawal of `amount` by `ctx.user` from the record of
    /// `ctx.user_state`, given whether the host's transfer out of the pool
    /// succeeded, at time `now`. Only the owner of a record may draw on it,
    /// and never more than its balance. On success the balance shrinks and
    /// the pool's withdrawal counter grows by `amount`; on any error nothing
    /// changes.
    pub fn leave_table(&mut self, ctx: &LeaveTable, amount: u64, transfer_ok: bool, now: i64) -> (r: Result<(), VaultError>)
        requires
            old(self).wf(),
        ensures
            final(self).wf(),
            (final(self)@, r) == spec_withdraw(old(self)@, ctx.user, ctx.user_state, amount, transfer_ok, now),
    {
        let mut state = match self.state {
            None => return Err(VaultError::NotInitialized),
            Some(s) => s,
        };
        let mut rec = self.current_record(&ctx.user_state);
        proof {
            lemma_record_of_owner(self@.records, ctx.user_state);
        }
        let r = ops::leave_table(&mut state, &mut rec, &ctx.user, amount, transfer_ok, now);
        if r.is_ok() {
            proof {
                lemma_put_record(self@.records, rec);
            }
            self.put(rec);
            self.state = Some(state);
        }
        r
    }

    /// The check of a recovery by `ctx.authority` that comes before any value
    /// moves, and the transfer the host must make: `amount` from the pool to
    /// the authority. No balance bounds the amount.
    pub fn recover_funds_transfer(&self, ctx: &RecoverFunds, amount: u64) -> (r: Result<Transfer, VaultError>)
        ensures
            r == spec_recover_request(self@, ctx.authority, amount),
    {
        match self.state {
            None => Err(VaultError::NotInitialized),
            Some(s) => ops::recover_funds_transfer(&s, &ctx.authority, amount),
        }
    }

    /// The outcome of a recovery by `ctx.authority`, given whether the host's
    /// transfer succeeded. It changes no record, and so leaves the counters
    /// and every balance as they were.
    pub fn recover_funds(&self, ctx: &RecoverFunds, transfer_ok: bool) -> (r: Result<(), VaultError>)
        ensures
            r == spec_recover(self@, ctx.authority, transfer_ok),
    {
        match self.state {
            None => Err(VaultError::NotInitialized),
            Some(s) => ops::recover_funds(&s, &ctx.authority, transfer_ok),
        }
    }
}

} // verus!
