//! The rule for a withdrawal.

use super::applied;
use super::check_not_frozen;
use super::in_range;
use super::RuleError;
use crate::model::Account;
use crate::model::Transaction;
use crate::model::TransactionType;
use vstd::prelude::*;

verus! {

/// Applies a withdrawal: the amount it carries is taken from what is
/// available; what is held stays.
///
/// Refused with `AccountFrozen` on a frozen account, else with
/// `MissingAmount` where the transaction carries no amount, else with
/// `InsuficientFunds` where the amount is more than is available.
/// A refused transaction leaves the account as it was.
///
/// The caller hands in a withdrawal, and sees to it that the balances stay
/// representable; [`has_room_for`](super::has_room_for) tells whether they
/// do.
pub fn withdrawal(account: &mut Account, tx: &Transaction) -> (r: Result<(), RuleError>)
    requires
        tx.kind == TransactionType::Withdrawal,
        in_range(applied(old(account)@, tx@)),
    ensures
        match applied(old(account)@, tx@) {
            Ok(next) => r is Ok && final(account)@ == next,
            Err(e) => r == Err::<(), RuleError>(e) && *final(account) == *old(account),
        },
        r is Ok ==> tx@.amount is Some && final(account)@.available == old(account)@.available
            - tx@.amount->0 && final(account)@.held == old(account)@.held,
        r == Err::<(), RuleError>(RuleError::InsuficientFunds) ==> tx@.amount is Some && old(
            account,
        )@.available < tx@.amount->0 && *final(account) == *old(account),
{
    check_not_frozen(account)?;
    account.withdrawal(tx)
}

} // verus!
