//! The rule for a deposit.

use super::applied;
use super::check_not_frozen;
use super::in_range;
use super::RuleError;
use crate::model::Account;
use crate::model::Transaction;
use crate::model::TransactionType;
use vstd::prelude::*;

verus! {

/// Applies a deposit: the amount it carries is added to what is available,
/// and the deposit goes on record under its transaction id.
///
/// Refused with `AccountFrozen` on a frozen account, else with
/// `MissingAmount` where the transaction carries no amount.
/// A refused transaction leaves the account as it was.
///
/// The caller hands in a deposit, and sees to it that the balances stay
/// representable; [`has_room_for`](super::has_room_for) tells whether they
/// do.
pub fn deposit(account: &mut Account, tx: &Transaction) -> (r: Result<(), RuleError>)
    requires
        tx.kind == TransactionType::Deposit,
        in_range(applied(old(account)@, tx@)),
    ensures
        match applied(old(account)@, tx@) {
            Ok(next) => r is Ok && final(account)@ == next,
            Err(e) => r == Err::<(), RuleError>(e) && *final(account) == *old(account),
        },
{
    check_not_frozen(account)?;
    account.deposit(tx)
}

} // verus!
