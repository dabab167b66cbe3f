use payments::amount::Amount;
use payments::model::{Account, AccountError, Transaction, TransactionType};
use payments::rules::RuleError;

fn make_tx(kind: TransactionType, client: u16, tx: u32, amount: Option<Amount>) -> Transaction {
    Transaction {
        kind,
        client,
        tx,
        amount,
    }
}

fn make_deposit(client: u16, tx: u32, amount: Amount) -> Transaction {
    make_tx(TransactionType::Deposit, client, tx, Some(amount))
}

fn make_withdrawal(client: u16, tx: u32, amount: Amount) -> Transaction {
    make_tx(TransactionType::Withdrawal, client, tx, Some(amount))
}

fn make_dispute(client: u16, tx: u32) -> Transaction {
    make_tx(TransactionType::Dispute, client, tx, None)
}

fn make_resolve(client: u16, tx: u32) -> Transaction {
    make_tx(TransactionType::Resolve, client, tx, None)
}

fn make_chargeback(client: u16, tx: u32) -> Transaction {
    make_tx(TransactionType::Chargeback, client, tx, None)
}

#[test]
fn account_deposit_increases_available() {
    let mut account = Account::new(1);
    account
        .process_transaction(make_deposit(1, 1, Amount::from(100)))
        .unwrap();
    assert_eq!(account.available, Amount::from(100));
}

#[test]
fn account_deposit_does_not_affect_held() {
    let mut account = Account::new(1);
    account
        .process_transaction(make_deposit(1, 1, Amount::from(50)))
        .unwrap();
    assert_eq!(account.held, Amount::zero());
}

#[test]
fn account_deposit_total_equals_available_when_no_held() {
    let mut account = Account::new(1);
    account
        .process_transaction(make_deposit(1, 1, Amount::from(75)))
        .unwrap();
    assert_eq!(account.total(), account.available);
}

#[test]
fn account_multiple_deposits_accumulate() {
    let mut account = Account::new(1);
    account
        .process_transaction(make_deposit(1, 1, Amount::from(1)))
        .unwrap();
    account
        .process_transaction(make_deposit(1, 2, Amount::from(2)))
        .unwrap();
    account
        .process_transaction(make_deposit(1, 3, Amount::from(3)))
        .unwrap();
    assert_eq!(account.available, Amount::from(6));
}

#[test]
fn account_deposit_on_frozen_account_returns_error() {
    let mut account = Account::new(1);
    account.frozen = true;
    let result = account.process_transaction(make_deposit(1, 1, Amount::from(100)));
    assert!(matches!(
        result,
        Err(AccountError::RuleViolation(RuleError::AccountFrozen))
    ));
    assert_eq!(account.available, Amount::zero());
}

#[test]
fn deposit_missing_amount_returns_error() {
    let mut account = Account::new(1);
    let result = account.process_transaction(make_tx(TransactionType::Deposit, 1, 1, None));
    assert!(matches!(
        result,
        Err(AccountError::RuleViolation(RuleError::MissingAmount(1)))
    ));
    assert_eq!(account.available, Amount::zero());
}

#[test]
fn account_withdrawal_decreases_available() {
    let mut account = Account::new(1);
    account.available = Amount::from(100);
    account
        .process_transaction(make_withdrawal(1, 1, Amount::from(40)))
        .unwrap();
    assert_eq!(account.available, Amount::from(60));
    assert_eq!(account.held, Amount::zero());
}

#[test]
fn account_withdrawal_exact_balance_succeeds() {
    let mut account = Account::new(1);
    account.available = Amount::from(50);
    account
        .process_transaction(make_withdrawal(1, 1, Amount::from(50)))
        .unwrap();
    assert_eq!(account.available, Amount::zero());
}

#[test]
fn account_withdrawal_insufficient_funds_returns_error_and_does_not_modify_account() {
    let mut account = Account::new(1);
    account.available = Amount::from(10);
    let result = account.process_transaction(make_withdrawal(1, 1, Amount::from(20)));
    assert!(matches!(
        result,
        Err(AccountError::RuleViolation(RuleError::InsuficientFunds))
    ));
    assert_eq!(account.available, Amount::from(10));
}

#[test]
fn account_withdrawal_on_frozen_account_returns_error() {
    let mut account = Account::new(1);
    account.available = Amount::from(100);
    account.frozen = true;
    let result = account.process_transaction(make_withdrawal(1, 1, Amount::from(40)));
    assert!(matches!(
        result,
        Err(AccountError::RuleViolation(RuleError::AccountFrozen))
    ));
    assert_eq!(account.available, Amount::from(100));
}

#[test]
fn withdrawal_missing_amount_returns_error() {
    let mut account = Account::new(1);
    account.available = Amount::from(100);
    let result = account.process_transaction(make_tx(TransactionType::Withdrawal, 1, 1, None));
    assert!(matches!(
        result,
        Err(AccountError::RuleViolation(RuleError::MissingAmount(1)))
    ));
    assert_eq!(account.available, Amount::from(100));
}

#[test]
fn account_dispute_moves_amount_from_available_to_held() {
    let mut account = Account::new(1);
    account
        .process_transaction(make_deposit(1, 1, Amount::from(100)))
        .unwrap();
    let total_before = account.total();
    account.process_transaction(make_dispute(1, 1)).unwrap();
    assert_eq!(account.available, Amount::zero());
    assert_eq!(account.held, Amount::from(100));
    assert_eq!(account.total(), total_before);
}

#[test]
fn account_dispute_unknown_tx_returns_error() {
    let mut account = Account::new(1);
    account
        .process_transaction(make_deposit(1, 1, Amount::from(100)))
        .unwrap();
    let result = account.process_transaction(make_dispute(1, 99));
    assert!(matches!(
        result,
        Err(AccountError::RuleViolation(RuleError::DepositNotFound(99)))
    ));
    assert_eq!(account.available, Amount::from(100));
    assert_eq!(account.held, Amount::zero());
}

#[test]
fn account_dispute_on_frozen_account_returns_error() {
    let mut account = Account::new(1);
    account
        .process_transaction(make_deposit(1, 1, Amount::from(100)))
        .unwrap();
    account.frozen = true;
    let result = account.process_transaction(make_dispute(1, 1));
    assert!(matches!(
        result,
        Err(AccountError::RuleViolation(RuleError::AccountFrozen))
    ));
    assert_eq!(account.available, Amount::from(100));
    assert_eq!(account.held, Amount::zero());
}

#[test]
fn account_resolve_moves_amount_from_held_to_available() {
    let mut account = Account::new(1);
    account
        .process_transaction(make_deposit(1, 1, Amount::from(100)))
        .unwrap();
    account.process_transaction(make_dispute(1, 1)).unwrap();
    let total_before = account.total();
    account.process_transaction(make_resolve(1, 1)).unwrap();
    assert_eq!(account.available, Amount::from(100));
    assert_eq!(account.held, Amount::zero());
    assert_eq!(account.total(), total_before);
}

#[test]
fn account_resolve_without_dispute_returns_error() {
    let mut account = Account::new(1);
    account
        .process_transaction(make_deposit(1, 1, Amount::from(100)))
        .unwrap();
    let result = account.process_transaction(make_resolve(1, 1));
    assert!(matches!(
        result,
        Err(AccountError::RuleViolation(
            RuleError::TrasactionNotOnDispute(1)
        ))
    ));
    assert_eq!(account.available, Amount::from(100));
    assert_eq!(account.held, Amount::zero());
}

#[test]
fn account_resolve_deposit_not_found_returns_error() {
    let mut account = Account::new(1);
    account
        .process_transaction(make_deposit(1, 1, Amount::from(100)))
        .unwrap();
    account.process_transaction(make_dispute(1, 1)).unwrap();
    let result = account.process_transaction(make_resolve(1, 99));
    assert!(matches!(
        result,
        Err(AccountError::RuleViolation(RuleError::DepositNotFound(99)))
    ));
}

#[test]
fn account_resolve_on_frozen_account_returns_error() {
    let mut account = Account::new(1);
    account
        .process_transaction(make_deposit(1, 1, Amount::from(100)))
        .unwrap();
    account.process_transaction(make_dispute(1, 1)).unwrap();
    account.frozen = true;
    let result = account.process_transaction(make_resolve(1, 1));
    assert!(matches!(
        result,
        Err(AccountError::RuleViolation(RuleError::AccountFrozen))
    ));
    assert_eq!(account.held, Amount::from(100));
    assert_eq!(account.available, Amount::zero());
}

#[test]
fn account_chargeback_removes_held_and_freezes_account() {
    let mut account = Account::new(1);
    account
        .process_transaction(make_deposit(1, 1, Amount::from(100)))
        .unwrap();
    account.process_transaction(make_dispute(1, 1)).unwrap();
    account.process_transaction(make_chargeback(1, 1)).unwrap();
    assert_eq!(account.held, Amount::zero());
    assert_eq!(account.available, Amount::zero());
    assert!(account.frozen);
}

#[test]
fn account_chargeback_decreases_total() {
    let mut account = Account::new(1);
    account
        .process_transaction(make_deposit(1, 1, Amount::from(100)))
        .unwrap();
    account.process_transaction(make_dispute(1, 1)).unwrap();
    let total_before = account.total();
    account.process_transaction(make_chargeback(1, 1)).unwrap();
    assert_eq!(account.total(), total_before.minus(Amount::from(100)));
    assert!(account.frozen);
}

#[test]
fn account_chargeback_deposit_not_found_returns_error() {
    let mut account = Account::new(1);
    account
        .process_transaction(make_deposit(1, 1, Amount::from(100)))
        .unwrap();
    account.process_transaction(make_dispute(1, 1)).unwrap();
    let result = account.process_transaction(make_chargeback(1, 99));
    assert!(matches!(
        result,
        Err(AccountError::RuleViolation(RuleError::DepositNotFound(99)))
    ));
}

#[test]
fn account_chargeback_deposit_not_found_does_not_modify_account() {
    let mut account = Account::new(1);
    account
        .process_transaction(make_deposit(1, 1, Amount::from(100)))
        .unwrap();
    account.process_transaction(make_dispute(1, 1)).unwrap();
    let _ = account.process_transaction(make_chargeback(1, 99));
    assert_eq!(account.held, Amount::from(100));
    assert!(!account.frozen);
}

#[test]
fn account_chargeback_without_dispute_returns_error() {
    let mut account = Account::new(1);
    account
        .process_transaction(make_deposit(1, 1, Amount::from(100)))
        .unwrap();
    let result = account.process_transaction(make_chargeback(1, 1));
    assert!(matches!(
        result,
        Err(AccountError::RuleViolation(
            RuleError::TrasactionNotOnDispute(1)
        ))
    ));
}

#[test]
fn account_chargeback_without_dispute_does_not_modify_account() {
    let mut account = Account::new(1);
    account
        .process_transaction(make_deposit(1, 1, Amount::from(100)))
        .unwrap();
    let _ = account.process_transaction(make_chargeback(1, 1));
    assert_eq!(account.available, Amount::from(100));
    assert_eq!(account.held, Amount::zero());
    assert!(!account.frozen);
}

#[test]
fn account_chargeback_on_frozen_account_returns_error() {
    let mut account = Account::new(1);
    account
        .process_transaction(make_deposit(1, 1, Amount::from(100)))
        .unwrap();
    account.process_transaction(make_dispute(1, 1)).unwrap();
    account.frozen = true;
    let result = account.process_transaction(make_chargeback(1, 1));
    assert!(matches!(
        result,
        Err(AccountError::RuleViolation(RuleError::AccountFrozen))
    ));
    assert_eq!(account.held, Amount::from(100));
    assert!(account.frozen);
}

#[test]
fn mismatching_accounts_returns_error() {
    let mut account = Account::new(1);
    let result = account.process_transaction(make_deposit(2, 1, Amount::from(100)));
    assert!(matches!(
        result,
        Err(AccountError::MismatchingAccounts(1, 2))
    ));
}
