use wrapped_appchain_token::errors::TokenError;
use wrapped_appchain_token::ledger::Ledger;

const A: u64 = 10;
const B: u64 = 11;

#[test]
fn new_ledger_is_empty() {
    let l = Ledger::new();
    assert_eq!(l.total_supply(), 0);
    assert!(!l.is_registered(A));
    assert_eq!(l.balance_of(A), 0);
}

#[test]
fn register_then_deposit_and_withdraw() {
    let mut l = Ledger::new();
    l.register(A).unwrap();
    assert!(l.is_registered(A));
    assert_eq!(l.balance_of(A), 0);
    l.deposit(A, 70).unwrap();
    assert_eq!(l.balance_of(A), 70);
    assert_eq!(l.total_supply(), 70);
    l.withdraw(A, 30).unwrap();
    assert_eq!(l.balance_of(A), 40);
    assert_eq!(l.total_supply(), 40);
}

#[test]
fn register_twice_fails() {
    let mut l = Ledger::new();
    l.register(A).unwrap();
    assert_eq!(l.register(A).err(), Some(TokenError::AlreadyRegistered));
}

#[test]
fn deposit_into_unregistered_fails() {
    let mut l = Ledger::new();
    assert_eq!(l.deposit(A, 5).err(), Some(TokenError::NotRegistered));
    assert_eq!(l.total_supply(), 0);
}

#[test]
fn deposit_overflow_fails_without_change() {
    let mut l = Ledger::new();
    l.register(A).unwrap();
    l.deposit(A, u128::MAX).unwrap();
    assert_eq!(l.deposit(A, 1).err(), Some(TokenError::BalanceOverflow));
    assert_eq!(l.balance_of(A), u128::MAX);
    assert_eq!(l.total_supply(), u128::MAX);
}

#[test]
fn withdraw_beyond_balance_fails() {
    let mut l = Ledger::new();
    l.register(A).unwrap();
    l.deposit(A, 10).unwrap();
    assert_eq!(l.withdraw(A, 11).err(), Some(TokenError::InsufficientBalance));
    assert_eq!(l.balance_of(A), 10);
}

#[test]
fn transfer_moves_balance_and_keeps_supply() {
    let mut l = Ledger::new();
    l.register(A).unwrap();
    l.register(B).unwrap();
    l.deposit(A, 100).unwrap();
    l.transfer(A, B, 40).unwrap();
    assert_eq!(l.balance_of(A), 60);
    assert_eq!(l.balance_of(B), 40);
    assert_eq!(l.total_supply(), 100);
}

#[test]
fn transfer_guards_reject_bad_calls() {
    let mut l = Ledger::new();
    l.register(A).unwrap();
    l.deposit(A, 100).unwrap();
    assert_eq!(l.transfer(A, A, 1).err(), Some(TokenError::SenderIsReceiver));
    assert_eq!(l.transfer(A, B, 0).err(), Some(TokenError::ZeroAmount));
    assert_eq!(l.transfer(B, A, 1).err(), Some(TokenError::NotRegistered));
    assert_eq!(l.transfer(A, B, 101).err(), Some(TokenError::InsufficientBalance));
    assert_eq!(l.transfer(A, B, 1).err(), Some(TokenError::NotRegistered));
    assert_eq!(l.balance_of(A), 100);
    assert_eq!(l.total_supply(), 100);
}
