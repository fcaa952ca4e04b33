use pallet_fomo::{Ledger, TransferError};

#[test]
fn new_ledger_holds_nothing() {
    let ledger = Ledger::new();
    assert_eq!(ledger.free_balance(0), 0);
    assert_eq!(ledger.free_balance(u64::MAX), 0);
}

#[test]
fn deposit_adds_to_the_balance() {
    let mut ledger = Ledger::new();
    assert_eq!(ledger.deposit(5, 40), Ok(()));
    assert_eq!(ledger.deposit(5, 2), Ok(()));
    assert_eq!(ledger.free_balance(5), 42);
    assert_eq!(ledger.free_balance(6), 0);
    assert_eq!(ledger.deposit(5, u128::MAX - 41), Err(TransferError::Overflow));
    assert_eq!(ledger.free_balance(5), 42);
}

#[test]
fn transfer_moves_the_exact_amount() {
    let mut ledger = Ledger::new();
    assert_eq!(ledger.deposit(1, 10), Ok(()));
    assert_eq!(ledger.deposit(3, 5), Ok(()));
    assert_eq!(ledger.transfer(1, 2, 4), Ok(()));
    assert_eq!(ledger.free_balance(1), 6);
    assert_eq!(ledger.free_balance(2), 4);
    assert_eq!(ledger.free_balance(3), 5);
    assert_eq!(ledger.transfer(1, 2, 6), Ok(()));
    assert_eq!(ledger.free_balance(1), 0);
    assert_eq!(ledger.free_balance(2), 10);
}

#[test]
fn transfer_without_funds_changes_nothing() {
    let mut ledger = Ledger::new();
    assert_eq!(ledger.deposit(1, 10), Ok(()));
    assert_eq!(
        ledger.transfer(1, 2, 11),
        Err(TransferError::InsufficientBalance)
    );
    assert_eq!(
        ledger.transfer(7, 1, 1),
        Err(TransferError::InsufficientBalance)
    );
    assert_eq!(ledger.free_balance(1), 10);
    assert_eq!(ledger.free_balance(2), 0);
}

#[test]
fn transfer_that_overflows_changes_nothing() {
    let mut ledger = Ledger::new();
    assert_eq!(ledger.deposit(1, 10), Ok(()));
    assert_eq!(ledger.deposit(2, u128::MAX - 9), Ok(()));
    assert_eq!(ledger.transfer(1, 2, 10), Err(TransferError::Overflow));
    assert_eq!(ledger.free_balance(1), 10);
    assert_eq!(ledger.free_balance(2), u128::MAX - 9);
    assert_eq!(ledger.transfer(1, 2, 9), Ok(()));
    assert_eq!(ledger.free_balance(2), u128::MAX);
}

#[test]
fn transfer_to_oneself_needs_the_funds() {
    let mut ledger = Ledger::new();
    assert_eq!(ledger.deposit(1, u128::MAX), Ok(()));
    assert_eq!(ledger.transfer(1, 1, u128::MAX), Ok(()));
    assert_eq!(ledger.free_balance(1), u128::MAX);
    assert_eq!(ledger.deposit(2, 3), Ok(()));
    assert_eq!(
        ledger.transfer(2, 2, 4),
        Err(TransferError::InsufficientBalance)
    );
    assert_eq!(ledger.free_balance(2), 3);
}
