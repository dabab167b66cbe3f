//! The rule for a dispute.

use super::applied;
use super::check_not_frozen;
use super::in_range;
use super::RuleError;
use crate::model::Account;
use crate::model::Transaction;
use crate::model::TransactionType;
use vstd::prelude::*;

verus! {

/// Applies a dispute: the amount of the deposit that the transaction names
/// moves from available to held, and the deposit is under dispute from now.
///
/// Refused with `AccountFrozen` on a frozen account, else with
/// `DepositNotFound` where no accepted deposit has that id.
/// A refused transaction leaves the account as it was.
///
/// The caller hands in a dispute, and sees to it that the balances stay
/// representable; [`has_room_for`](super::has_room_for) tells whether they
/// do.
pub fn dispute(account: &mut Account, tx: &Transaction) -> (r: Result<(), RuleError>)
    requires
        tx.kind == TransactionType::Dispute,
        in_range(applied(old(account)@, tx@)),
    ensures
        match applied(old(account)@, tx@) {
            Ok(next) => r is Ok && final(account)@ == next,
            Err(e) => r == Err::<(), RuleError>(e) && *final(account) == *old(account),
        },
{
    check_not_frozen(account)?;
    account.dispute(tx)
}

} // verus!
