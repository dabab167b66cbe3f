//! The rules of the engine: what each kind of transaction demands of an
//! account and what it does to it.
//!
//! The rules are stated twice. The spec functions say, over
//! [`AccountView`], which account follows from a transaction or which error
//! refuses it. The executable functions do the same to an [`Account`] and
//! are proved to agree with them. A refused transaction changes nothing.

pub mod chargeback;
pub mod deposit;
pub mod dispute;
pub mod resolve;
pub mod withdrawal;

pub use chargeback::chargeback;
pub use deposit::deposit;
pub use dispute::dispute;
pub use resolve::resolve;
pub use withdrawal::withdrawal;

use crate::amount::Amount;
use crate::model::Account;
use crate::model::AccountView;
use crate::model::Transaction;
use crate::model::TransactionType;
use crate::model::TransactionView;
use vstd::prelude::*;

verus! {

/// Why a rule refuses a transaction.
#[derive(Clone, Copy, Debug, PartialEq, Eq, Structural)]
pub enum RuleError {
    /// The account is frozen: a chargeback has closed it.
    AccountFrozen,
    /// A withdrawal asks for more than is available.
    InsuficientFunds,
    /// No accepted deposit has this transaction id.
    DepositNotFound(u32),
    /// The deposit with this transaction id is not under dispute.
    TrasactionNotOnDispute(u32),
    /// The deposit or withdrawal with this transaction id carries no amount.
    MissingAmount(u32),
}

/// A deposit of `amount` under the id `tx`: it adds to what is available and
/// goes on record, replacing an earlier deposit of the same id.
pub open spec fn deposited(s: AccountView, tx: u32, amount: Option<int>) -> Result<
    AccountView,
    RuleError,
> {
    match amount {
        None => Err(RuleError::MissingAmount(tx)),
        Some(a) => Ok(
            AccountView { available: s.available + a, deposits: s.deposits.insert(tx, a), ..s },
        ),
    }
}

/// A withdrawal of `amount` under the id `tx`: it takes from what is
/// available, and never more than that.
pub open spec fn withdrawn(s: AccountView, tx: u32, amount: Option<int>) -> Result<
    AccountView,
    RuleError,
> {
    match amount {
        None => Err(RuleError::MissingAmount(tx)),
        Some(a) => if s.available < a {
            Err(RuleError::InsuficientFunds)
        } else {
            Ok(AccountView { available: s.available - a, ..s })
        },
    }
}

/// A dispute of the deposit `tx`: its amount moves from available to held.
pub open spec fn disputed(s: AccountView, tx: u32) -> Result<AccountView, RuleError> {
    if !s.deposits.contains_key(tx) {
        Err(RuleError::DepositNotFound(tx))
    } else {
        Ok(
            AccountView {
                available: s.available - s.deposits[tx],
                held: s.held + s.deposits[tx],
                disputes: s.disputes.insert(tx),
                ..s
            },
        )
    }
}

/// The error that keeps the deposit `tx` from being resolved or charged
/// back, if any: it must be on record, and under dispute.
pub open spec fn dispute_missing(s: AccountView, tx: u32) -> Option<RuleError> {
    if !s.deposits.contains_key(tx) {
        Some(RuleError::DepositNotFound(tx))
    } else if !s.disputes.contains(tx) {
        Some(RuleError::TrasactionNotOnDispute(tx))
    } else {
        None
    }
}

/// A resolve of the disputed deposit `tx`: its amount moves back from held
/// to available, and the dispute is closed.
pub open spec fn resolved(s: AccountView, tx: u32) -> Result<AccountView, RuleError> {
    match dispute_missing(s, tx) {
        Some(e) => Err(e),
        None => Ok(
            AccountView {
                available: s.available + s.deposits[tx],
                held: s.held - s.deposits[tx],
                disputes: s.disputes.remove(tx),
                ..s
            },
        ),
    }
}

/// A chargeback of the disputed deposit `tx`: its amount leaves held for
/// good, the dispute is closed and the account is frozen.
pub open spec fn charged_back(s: AccountView, tx: u32) -> Result<AccountView, RuleError> {
    match dispute_missing(s, tx) {
        Some(e) => Err(e),
        None => Ok(
            AccountView {
                held: s.held - s.deposits[tx],
                frozen: true,
                disputes: s.disputes.remove(tx),
                ..s
            },
        ),
    }
}

/// What the rule of `t`'s kind makes of the account, whether frozen or not.
pub open spec fn handled(s: AccountView, t: TransactionView) -> Result<AccountView, RuleError> {
    match t.kind {
        TransactionType::Deposit => deposited(s, t.tx, t.amount),
        TransactionType::Withdrawal => withdrawn(s, t.tx, t.amount),
        TransactionType::Dispute => disputed(s, t.tx),
        TransactionType::Resolve => resolved(s, t.tx),
        TransactionType::Chargeback => charged_back(s, t.tx),
    }
}

/// What `t` makes of the account: a frozen account refuses everything, any
/// other goes by the rule of `t`'s kind.
pub open spec fn applied(s: AccountView, t: TransactionView) -> Result<AccountView, RuleError> {
    if s.frozen {
        Err(RuleError::AccountFrozen)
    } else {
        handled(s, t)
    }
}

/// Whether the account that `outcome` leads to, if any, has balances that
/// an [`Amount`] can hold.
pub open spec fn in_range<E>(outcome: Result<AccountView, E>) -> bool {
    outcome matches Ok(next) ==> next.in_range()
}

/// Refuses a frozen account.
pub fn check_not_frozen(account: &Account) -> (r: Result<(), RuleError>)
    ensures
        r == if account@.frozen {
            Err::<(), RuleError>(RuleError::AccountFrozen)
        } else {
            Ok(())
        },
{
    if account.frozen {
        return Err(RuleError::AccountFrozen);
    }
    Ok(())
}

/// Refuses an amount that is more than the account has available.
pub fn check_sufficient_funds(account: &Account, amount: Amount) -> (r: Result<(), RuleError>)
    ensures
        r == if account@.available < amount@ {
            Err::<(), RuleError>(RuleError::InsuficientFunds)
        } else {
            Ok(())
        },
{
    if account.available.less_than(&amount) {
        return Err(RuleError::InsuficientFunds);
    }
    Ok(())
}

/// The amount that the transaction `tx_id` must carry.
pub fn require_amount(tx_id: u32, amount: Option<Amount>) -> (r: Result<Amount, RuleError>)
    ensures
        match amount {
            Some(a) => r == Ok::<Amount, RuleError>(a),
            None => r == Err::<Amount, RuleError>(RuleError::MissingAmount(tx_id)),
        },
{
    match amount {
        Some(a) => Ok(a),
        None => Err(RuleError::MissingAmount(tx_id)),
    }
}

/// The amount of the accepted deposit `tx_id`.
pub fn get_deposit_amount(account: &Account, tx_id: u32) -> (r: Result<Amount, RuleError>)
    ensures
        match r {
            Ok(a) => account@.deposits.contains_key(tx_id) && a@ == account@.deposits[tx_id],
            Err(e) => !account@.deposits.contains_key(tx_id) && e == RuleError::DepositNotFound(
                tx_id,
            ),
        },
{
    match account.find_deposit(&tx_id) {
        Some(a) => Ok(*a),
        None => Err(RuleError::DepositNotFound(tx_id)),
    }
}

/// Accepts the id of a deposit that is on record and under dispute.
pub fn check_dispute_exists(account: &Account, tx_id: u32) -> (r: Result<(), RuleError>)
    ensures
        r == match dispute_missing(account@, tx_id) {
            Some(e) => Err::<(), RuleError>(e),
            None => Ok(()),
        },
{
    match get_deposit_amount(account, tx_id) {
        Ok(_) => {},
        Err(e) => {
            return Err(e);
        },
    }
    match account.has_dispute(&tx_id) {
        Some(_) => Ok(()),
        None => Err(RuleError::TrasactionNotOnDispute(tx_id)),
    }
}

/// Whether the balances that `tx` leads to, if no rule refuses it, can be
/// held by an [`Amount`]: what the rules ask of their caller.
pub fn has_room_for(account: &Account, tx: &Transaction) -> (r: bool)
    ensures
        r == in_range(applied(account@, tx@)),
{
    proof {
        use_type_invariant(&account.available);
        use_type_invariant(&account.held);
    }
    if account.frozen {
        return true;
    }
    match tx.kind {
        TransactionType::Deposit => match tx.amount {
            Some(amount) => account.available.checked_add(amount).is_some(),
            None => true,
        },
        TransactionType::Withdrawal => match tx.amount {
            Some(amount) => account.available.less_than(&amount) || account.available.checked_sub(
                amount,
            ).is_some(),
            None => true,
        },
        TransactionType::Dispute => match account.find_deposit(&tx.tx) {
            Some(amount) => account.available.checked_sub(*amount).is_some()
                && account.held.checked_add(*amount).is_some(),
            None => true,
        },
        TransactionType::Resolve => match account.find_deposit(&tx.tx) {
            Some(amount) => account.has_dispute(&tx.tx).is_none() || (
            account.available.checked_add(*amount).is_some() && account.held.checked_sub(
                *amount,
            ).is_some()),
            None => true,
        },
        TransactionType::Chargeback => match account.find_deposit(&tx.tx) {
            Some(amount) => account.has_dispute(&tx.tx).is_none() || account.held.checked_sub(
                *amount,
            ).is_some(),
            None => true,
        },
    }
}

} // verus!
