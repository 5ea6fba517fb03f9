use solpoker_vault::{
    BuyIn, Identity, InitializeVault, LeaveTable, Location, RecoverFunds, Vault, VaultError,
};

fn id(b: u8) -> Identity {
    Identity::new([b; 32])
}

fn admin() -> Identity {
    id(1)
}

fn alice() -> Identity {
    id(2)
}

fn bob() -> Identity {
    id(3)
}

fn ready() -> Vault {
    let mut v = Vault::new();
    v.initialize_vault(&InitializeVault { authority: admin() }).unwrap();
    v
}

fn deposit(v: &mut Vault, who: Identity, amount: u64, now: i64) -> Result<(), VaultError> {
    let ctx = BuyIn { user: who };
    v.buy_in_transfer(&ctx, amount)?;
    v.buy_in(&ctx, amount, true, now)
}

fn withdraw(v: &mut Vault, who: Identity, from: Identity, amount: u64, now: i64) -> Result<(), VaultError> {
    let ctx = LeaveTable { user: who, user_state: from };
    v.leave_table_transfer(&ctx, amount)?;
    v.leave_table(&ctx, amount, true, now)
}

#[test]
fn initialize_sets_authority_and_zero_counters() {
    let v = ready();
    let s = v.vault_state().unwrap();
    assert_eq!(s.authority, admin());
    assert_eq!(s.total_deposited, 0);
    assert_eq!(s.total_withdrawn, 0);
}

#[test]
fn initialize_twice_is_refused_and_keeps_state() {
    let mut v = ready();
    let r = v.initialize_vault(&InitializeVault { authority: bob() });
    assert_eq!(r, Err(VaultError::AlreadyInitialized));
    let s = v.vault_state().unwrap();
    assert_eq!(s.authority, admin());
    assert_eq!(s.total_deposited, 0);
    assert_eq!(s.total_withdrawn, 0);
}

#[test]
fn operations_before_initialize_are_refused() {
    let mut v = Vault::new();
    assert!(v.vault_state().is_none());
    assert_eq!(v.buy_in(&BuyIn { user: alice() }, 5, true, 1), Err(VaultError::NotInitialized));
    assert_eq!(v.buy_in_transfer(&BuyIn { user: alice() }, 5).unwrap_err(), VaultError::NotInitialized);
    let ctx = LeaveTable { user: alice(), user_state: alice() };
    assert_eq!(v.leave_table(&ctx, 5, true, 1), Err(VaultError::NotInitialized));
    assert_eq!(
        v.recover_funds(&RecoverFunds { authority: admin() }, true),
        Err(VaultError::NotInitialized)
    );
}

#[test]
fn two_deposits_add_up() {
    let mut v = ready();
    deposit(&mut v, alice(), 100, 10).unwrap();
    deposit(&mut v, alice(), 50, 20).unwrap();
    assert_eq!(v.balance_of(&alice()), 150);
    assert_eq!(v.vault_state().unwrap().total_deposited, 150);
    let rec = v.user_state(&alice()).unwrap();
    assert_eq!(rec.owner, alice());
    assert_eq!(rec.last_deposit, 20);
    assert_eq!(rec.last_withdrawal, 0);
}

#[test]
fn deposit_then_withdraw() {
    let mut v = ready();
    deposit(&mut v, alice(), 100, 10).unwrap();
    withdraw(&mut v, alice(), alice(), 30, 40).unwrap();
    assert_eq!(v.balance_of(&alice()), 70);
    let s = v.vault_state().unwrap();
    assert_eq!(s.total_withdrawn, 30);
    assert_eq!(s.total_deposited, 100);
    let rec = v.user_state(&alice()).unwrap();
    assert_eq!(rec.last_deposit, 10);
    assert_eq!(rec.last_withdrawal, 40);
}

#[test]
fn withdraw_from_empty_balance_is_insufficient() {
    let mut v = ready();
    let r = withdraw(&mut v, alice(), alice(), 10, 1);
    assert_eq!(r, Err(VaultError::InsufficientBalance));
    assert_eq!(v.balance_of(&alice()), 0);
    assert!(v.user_state(&alice()).is_none());
}

#[test]
fn withdraw_more_than_balance_is_insufficient() {
    let mut v = ready();
    deposit(&mut v, alice(), 20, 1).unwrap();
    let ctx = LeaveTable { user: alice(), user_state: alice() };
    assert_eq!(v.leave_table(&ctx, 21, true, 2), Err(VaultError::InsufficientBalance));
    assert_eq!(v.balance_of(&alice()), 20);
    withdraw(&mut v, alice(), alice(), 20, 3).unwrap();
    assert_eq!(v.balance_of(&alice()), 0);
}

#[test]
fn zero_deposit_is_invalid() {
    let mut v = ready();
    assert_eq!(deposit(&mut v, alice(), 0, 1), Err(VaultError::InvalidAmount));
    assert_eq!(v.buy_in(&BuyIn { user: alice() }, 0, true, 1), Err(VaultError::InvalidAmount));
    assert!(v.user_state(&alice()).is_none());
    assert_eq!(v.vault_state().unwrap().total_deposited, 0);
}

#[test]
fn zero_withdraw_is_invalid() {
    let mut v = ready();
    deposit(&mut v, alice(), 5, 1).unwrap();
    assert_eq!(withdraw(&mut v, alice(), alice(), 0, 2), Err(VaultError::InvalidAmount));
    assert_eq!(v.balance_of(&alice()), 5);
}

#[test]
fn recovery_by_non_authority_is_refused() {
    let v = ready();
    let ctx = RecoverFunds { authority: bob() };
    assert_eq!(v.recover_funds_transfer(&ctx, 5).unwrap_err(), VaultError::UnauthorizedRecovery);
    assert_eq!(v.recover_funds(&ctx, true), Err(VaultError::UnauthorizedRecovery));
}

#[test]
fn recovery_by_authority_moves_value_to_authority_only() {
    let mut v = ready();
    deposit(&mut v, alice(), 40, 1).unwrap();
    let ctx = RecoverFunds { authority: admin() };
    let t = v.recover_funds_transfer(&ctx, 5).unwrap();
    assert!(matches!(t.from, Location::Pool));
    assert!(matches!(t.to, Location::External(who) if who == admin()));
    assert_eq!(t.amount, 5);
    assert_eq!(v.recover_funds(&ctx, true), Ok(()));
    assert_eq!(v.recover_funds(&ctx, false), Err(VaultError::TransferFailed));
    assert_eq!(v.balance_of(&alice()), 40);
    let s = v.vault_state().unwrap();
    assert_eq!(s.total_deposited, 40);
    assert_eq!(s.total_withdrawn, 0);
}

#[test]
fn withdraw_against_another_record_is_unauthorized() {
    let mut v = ready();
    deposit(&mut v, bob(), 60, 1).unwrap();
    let ctx = LeaveTable { user: alice(), user_state: bob() };
    assert_eq!(v.leave_table_transfer(&ctx, 10).unwrap_err(), VaultError::UnauthorizedWithdraw);
    assert_eq!(v.leave_table(&ctx, 10, true, 2), Err(VaultError::UnauthorizedWithdraw));
    assert_eq!(v.balance_of(&bob()), 60);
    assert_eq!(v.vault_state().unwrap().total_withdrawn, 0);
}

#[test]
fn failed_transfer_changes_nothing() {
    let mut v = ready();
    deposit(&mut v, alice(), 10, 1).unwrap();
    assert_eq!(v.buy_in(&BuyIn { user: alice() }, 5, false, 2), Err(VaultError::TransferFailed));
    let ctx = LeaveTable { user: alice(), user_state: alice() };
    assert_eq!(v.leave_table(&ctx, 5, false, 3), Err(VaultError::TransferFailed));
    assert_eq!(v.balance_of(&alice()), 10);
    let rec = v.user_state(&alice()).unwrap();
    assert_eq!(rec.last_deposit, 1);
    assert_eq!(rec.last_withdrawal, 0);
    let s = v.vault_state().unwrap();
    assert_eq!(s.total_deposited, 10);
    assert_eq!(s.total_withdrawn, 0);
}

#[test]
fn deposit_overflow_is_refused() {
    let mut v = ready();
    deposit(&mut v, alice(), u64::MAX, 1).unwrap();
    assert_eq!(deposit(&mut v, bob(), 1, 2), Err(VaultError::ArithmeticOverflow));
    assert_eq!(v.buy_in(&BuyIn { user: alice() }, 1, true, 2), Err(VaultError::ArithmeticOverflow));
    assert_eq!(v.balance_of(&alice()), u64::MAX);
    assert!(v.user_state(&bob()).is_none());
    assert_eq!(v.vault_state().unwrap().total_deposited, u64::MAX);
}

#[test]
fn deposit_request_names_the_transfer() {
    let v = ready();
    let t = v.buy_in_transfer(&BuyIn { user: alice() }, 70).unwrap();
    assert!(matches!(t.from, Location::External(who) if who == alice()));
    assert!(matches!(t.to, Location::Pool));
    assert_eq!(t.amount, 70);
}

#[test]
fn withdraw_request_names_the_transfer() {
    let mut v = ready();
    deposit(&mut v, alice(), 70, 1).unwrap();
    let t = v.leave_table_transfer(&LeaveTable { user: alice(), user_state: alice() }, 25).unwrap();
    assert!(matches!(t.from, Location::Pool));
    assert!(matches!(t.to, Location::External(who) if who == alice()));
    assert_eq!(t.amount, 25);
}

#[test]
fn conservation_over_many_principals() {
    let mut v = ready();
    deposit(&mut v, alice(), 100, 1).unwrap();
    deposit(&mut v, bob(), 40, 2).unwrap();
    withdraw(&mut v, alice(), alice(), 30, 3).unwrap();
    deposit(&mut v, id(9), 7, 4).unwrap();
    withdraw(&mut v, bob(), bob(), 40, 5).unwrap();
    let _ = withdraw(&mut v, bob(), alice(), 1, 6);
    let _ = deposit(&mut v, alice(), 0, 7);
    let s = v.vault_state().unwrap();
    let sum = v.balance_of(&alice()) + v.balance_of(&bob()) + v.balance_of(&id(9));
    assert_eq!(sum, 77);
    assert_eq!(s.total_deposited - s.total_withdrawn, sum);
}

#[test]
fn counters_never_decrease() {
    let mut v = ready();
    let mut last = (0u64, 0u64);
    let steps: [(u8, u64, bool); 6] =
        [(0, 10, true), (1, 4, true), (1, 50, true), (0, 0, true), (0, 3, false), (1, 6, true)];
    for (i, (kind, amount, ok)) in steps.iter().enumerate() {
        let now = i as i64;
        let _ = if *kind == 0 {
            v.buy_in(&BuyIn { user: alice() }, *amount, *ok, now)
        } else {
            v.leave_table(&LeaveTable { user: alice(), user_state: alice() }, *amount, *ok, now)
        };
        let s = v.vault_state().unwrap();
        assert!(s.total_deposited >= last.0);
        assert!(s.total_withdrawn >= last.1);
        last = (s.total_deposited, s.total_withdrawn);
    }
    assert_eq!(last, (10, 10));
    assert_eq!(v.balance_of(&alice()), 0);
}

#[test]
fn identities_compare_by_every_byte() {
    let mut b = [7u8; 32];
    let x = Identity::new(b);
    b[31] = 8;
    let y = Identity::new(b);
    assert!(x.same_as(&x));
    assert!(!x.same_as(&y));
    assert!(x != y);
    assert_eq!(x, Identity::new([7u8; 32]));
}
