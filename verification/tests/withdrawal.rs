use payments::amount::Amount;
use payments::model::{Account, Transaction, TransactionType};
use payments::rules::{withdrawal, RuleError};

fn make_withdrawal(client: u16, tx: u32, amount: Amount) -> Transaction {
    Transaction {
        kind: TransactionType::Withdrawal,
        client,
        tx,
        amount: Some(amount),
    }
}

fn account_with_funds(client: u16, available: Amount) -> Account {
    let mut account = Account::new(client);
    account.available = available;
    account
}

#[test]
fn withdrawal_withdrawal_decreases_available() {
    let mut account = account_with_funds(1, Amount::from(100));
    withdrawal(&mut account, &make_withdrawal(1, 1, Amount::from(40))).unwrap();
    assert_eq!(account.available, Amount::from(60));
    assert_eq!(account.held, Amount::zero());
}

#[test]
fn withdrawal_withdrawal_exact_balance_succeeds() {
    let mut account = account_with_funds(1, Amount::from(50));
    withdrawal(&mut account, &make_withdrawal(1, 1, Amount::from(50))).unwrap();
    assert_eq!(account.available, Amount::zero());
}

#[test]
fn withdrawal_withdrawal_insufficient_funds_returns_error_and_does_not_modify_account() {
    let mut account = account_with_funds(1, Amount::from(10));
    let result = withdrawal(&mut account, &make_withdrawal(1, 1, Amount::from(20)));
    assert!(matches!(result, Err(RuleError::InsuficientFunds)));
    assert_eq!(account.available, Amount::from(10));
}

#[test]
fn withdrawal_withdrawal_on_frozen_account_returns_error() {
    let mut account = account_with_funds(1, Amount::from(100));
    account.frozen = true;
    let result = withdrawal(&mut account, &make_withdrawal(1, 1, Amount::from(40)));
    assert!(matches!(result, Err(RuleError::AccountFrozen)));
    assert_eq!(account.available, Amount::from(100));
}

#[test]
fn withdrawal_without_amount_is_refused_and_changes_nothing() {
    let mut account = account_with_funds(1, Amount::from(100));
    let tx = Transaction {
        kind: TransactionType::Withdrawal,
        client: 1,
        tx: 4,
        amount: None,
    };
    assert_eq!(
        withdrawal(&mut account, &tx),
        Err(RuleError::MissingAmount(4))
    );
    assert_eq!(account.available, Amount::from(100));
}

#[test]
fn withdrawal_leaves_held_and_the_record_alone() {
    let mut account = account_with_funds(1, Amount::from(100));
    account.held = Amount::from(7);
    withdrawal(&mut account, &make_withdrawal(1, 9, Amount::parse("0.0001").unwrap())).unwrap();
    assert_eq!(account.available.units(), 999_999);
    assert_eq!(account.held, Amount::from(7));
    assert!(account.find_deposit(&9).is_none());
}
