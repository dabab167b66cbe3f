//! The rule for a resolve.

use super::applied;
use super::check_not_frozen;
use super::in_range;
use super::RuleError;
use crate::model::Account;
use crate::model::Transaction;
use crate::model::TransactionType;
use vstd::prelude::*;

verus! {

/// Applies a resolve: the amount of the disputed deposit that the
/// transaction names moves back from held to available, and the dispute is
/// closed.
///
/// Refused with `AccountFrozen` on a frozen account, else with
/// `DepositNotFound` where no accepted deposit has that id, else with
/// `TrasactionNotOnDispute` where that deposit is not under dispute.
/// A refused transaction leaves the account as it was.
///
/// The caller hands in a resolve, and sees to it that the balances stay
/// representable; [`has_room_for`](super::has_room_for) tells whether they
/// do.
pub fn resolve(account: &mut Account, tx: &Transaction) -> (r: Result<(), RuleError>)
    requires
        tx.kind == TransactionType::Resolve,
        in_range(applied(old(account)@, tx@)),
    ensures
        match applied(old(account)@, tx@) {
            Ok(next) => r is Ok && final(account)@ == next,
            Err(e) => r == Err::<(), RuleError>(e) && *final(account) == *old(account),
        },
{
    check_not_frozen(account)?;
    account.resolve(tx)
}

} // verus!
