use payments::amount::Amount;
use payments::model::{Account, Transaction, TransactionType};
use payments::rules::{deposit, RuleError};

fn make_deposit(client: u16, tx: u32, amount: Amount) -> Transaction {
    Transaction {
        kind: TransactionType::Deposit,
        client,
        tx,
        amount: Some(amount),
    }
}

#[test]
fn deposit_deposit_increases_available() {
    let mut account = Account::new(1);
    deposit(&mut account, &make_deposit(1, 1, Amount::from(100))).unwrap();
    assert_eq!(account.available, Amount::from(100));
}

#[test]
fn deposit_deposit_does_not_affect_held() {
    let mut account = Account::new(1);
    deposit(&mut account, &make_deposit(1, 1, Amount::from(50))).unwrap();
    assert_eq!(account.held, Amount::zero());
}

#[test]
fn deposit_deposit_total_equals_available_when_no_held() {
    let mut account = Account::new(1);
    deposit(&mut account, &make_deposit(1, 1, Amount::from(75))).unwrap();
    assert_eq!(account.total(), account.available);
}

#[test]
fn deposit_multiple_deposits_accumulate() {
    let mut account = Account::new(1);
    deposit(&mut account, &make_deposit(1, 1, Amount::from(1))).unwrap();
    deposit(&mut account, &make_deposit(1, 2, Amount::from(2))).unwrap();
    deposit(&mut account, &make_deposit(1, 3, Amount::from(3))).unwrap();
    assert_eq!(account.available, Amount::from(6));
}

#[test]
fn deposit_deposit_on_frozen_account_returns_error() {
    let mut account = Account::new(1);
    account.frozen = true;
    let result = deposit(&mut account, &make_deposit(1, 1, Amount::from(100)));
    assert!(matches!(result, Err(RuleError::AccountFrozen)));
    assert_eq!(account.available, Amount::zero());
}

#[test]
fn deposit_without_amount_is_refused_and_changes_nothing() {
    let mut account = Account::new(1);
    let tx = Transaction {
        kind: TransactionType::Deposit,
        client: 1,
        tx: 8,
        amount: None,
    };
    assert_eq!(deposit(&mut account, &tx), Err(RuleError::MissingAmount(8)));
    assert_eq!(account.available, Amount::zero());
    assert!(account.find_deposit(&8).is_none());
}

#[test]
fn deposit_goes_on_record_under_its_id() {
    let mut account = Account::new(1);
    deposit(&mut account, &make_deposit(1, 5, Amount::from(12))).unwrap();
    assert_eq!(account.find_deposit(&5), Some(&Amount::from(12)));
    assert_eq!(account.find_deposit(&6), None);
}

#[test]
fn deposit_with_a_used_id_replaces_the_record() {
    let mut account = Account::new(1);
    deposit(&mut account, &make_deposit(1, 5, Amount::from(12))).unwrap();
    deposit(&mut account, &make_deposit(1, 5, Amount::from(30))).unwrap();
    assert_eq!(account.available, Amount::from(42));
    assert_eq!(account.find_deposit(&5), Some(&Amount::from(30)));
}
