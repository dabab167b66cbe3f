//! What holds of the rules across several transactions.
//!
//! The laws of one account are proved of [`processed`], the function that
//! the contract of
//! [`Account::process_transaction`](crate::model::Account::process_transaction)
//! is stated with, and the law of the ledger of [`recorded`], which states
//! [`Ledger::apply`](crate::ledger::Ledger::apply): what a law says of the
//! model, the executable code does.

use crate::ledger::account_of;
use crate::ledger::keyed_by_client;
use crate::ledger::recorded;
use crate::model::account::processed;
use crate::model::AccountError;
use crate::model::AccountView;
use crate::model::TransactionType;
use crate::model::TransactionView;
use crate::rules::RuleError;
use vstd::prelude::*;

verus! {

/// The account after the transactions `ts`, taken in order. A refused
/// transaction changes nothing, and the next one is taken up.
pub open spec fn processed_all(s: AccountView, ts: Seq<TransactionView>) -> AccountView
    decreases ts.len(),
{
    if ts.len() == 0 {
        s
    } else {
        let so_far = processed_all(s, ts.drop_last());
        match processed(so_far, ts.last()) {
            Ok(next) => next,
            Err(_) => so_far,
        }
    }
}

/// The sum of the amounts that the transactions `ts` carry.
pub open spec fn sum_of_amounts(ts: Seq<TransactionView>) -> int
    decreases ts.len(),
{
    if ts.len() == 0 {
        0
    } else {
        sum_of_amounts(ts.drop_last()) + match ts.last().amount {
            Some(a) => a,
            None => 0,
        }
    }
}

/// Whether every transaction of `ts` is a deposit for `client`.
pub open spec fn deposits_only(ts: Seq<TransactionView>, client: u16) -> bool {
    forall|i: int|
        0 <= i < ts.len() ==> (#[trigger] ts[i]).kind == TransactionType::Deposit && ts[i].client
            == client
}

/// Whether every open dispute is about a deposit on record.
pub open spec fn disputes_on_record(s: AccountView) -> bool {
    forall|tx: u32| s.disputes.contains(tx) ==> #[trigger] s.deposits.contains_key(tx)
}

/// Deposits add up: after any sequence of deposits, an account that was not
/// frozen has the sum of their amounts more available, and holds what it
/// held.
pub proof fn law_deposits_add_up(s: AccountView, ts: Seq<TransactionView>)
    requires
        !s.frozen,
        deposits_only(ts, s.client),
    ensures
        processed_all(s, ts).available == s.available + sum_of_amounts(ts),
        processed_all(s, ts).held == s.held,
        processed_all(s, ts).client == s.client,
        !processed_all(s, ts).frozen,
    decreases ts.len(),
{
    if ts.len() > 0 {
        law_deposits_add_up(s, ts.drop_last());
    }
}

/// After deposits only, a newly opened account has their sum available and
/// holds nothing.
pub proof fn law_deposits_only(client: u16, ts: Seq<TransactionView>)
    requires
        deposits_only(ts, client),
    ensures
        processed_all(AccountView::opened(client), ts).available == sum_of_amounts(ts),
        processed_all(AccountView::opened(client), ts).held == 0,
{
    law_deposits_add_up(AccountView::opened(client), ts);
}

/// An accepted withdrawal takes exactly its amount from what is available
/// and leaves the rest of the account alone. One that asks for more than is
/// available is refused for insufficient funds.
pub proof fn law_withdrawal(s: AccountView, t: TransactionView, amount: int)
    requires
        t.kind == TransactionType::Withdrawal,
        t.amount == Some(amount),
    ensures
        processed(s, t) matches Ok(next) ==> next == (AccountView {
            available: s.available - amount,
            ..s
        }),
        t.client == s.client && !s.frozen && s.available < amount ==> processed(s, t) == Err::<
            AccountView,
            AccountError,
        >(AccountError::RuleViolation(RuleError::InsuficientFunds)),
        t.client == s.client && !s.frozen && s.available >= amount ==> processed(s, t) is Ok,
{
}

/// A dispute that is resolved leaves the balances where they were: the
/// resolve of an accepted dispute is accepted, available and held are back
/// at what they were before the dispute, and the total never moved.
pub proof fn law_dispute_then_resolve(
    s: AccountView,
    dispute: TransactionView,
    resolve: TransactionView,
)
    requires
        dispute.kind == TransactionType::Dispute,
        resolve.kind == TransactionType::Resolve,
        resolve.client == dispute.client,
        resolve.tx == dispute.tx,
        processed(s, dispute) is Ok,
    ensures
        processed(processed(s, dispute)->Ok_0, resolve) is Ok,
        processed(s, dispute)->Ok_0.total() == s.total(),
        processed(processed(s, dispute)->Ok_0, resolve)->Ok_0.total() == s.total(),
        processed(processed(s, dispute)->Ok_0, resolve)->Ok_0.available == s.available,
        processed(processed(s, dispute)->Ok_0, resolve)->Ok_0.held == s.held,
{
}

/// A dispute that ends in a chargeback costs the client the disputed
/// amount: the chargeback of an accepted dispute is accepted, the total is
/// less by the amount of the deposit, and the account is frozen.
pub proof fn law_dispute_then_chargeback(
    s: AccountView,
    dispute: TransactionView,
    chargeback: TransactionView,
)
    requires
        dispute.kind == TransactionType::Dispute,
        chargeback.kind == TransactionType::Chargeback,
        chargeback.client == dispute.client,
        chargeback.tx == dispute.tx,
        processed(s, dispute) is Ok,
    ensures
        processed(processed(s, dispute)->Ok_0, chargeback) is Ok,
        processed(processed(s, dispute)->Ok_0, chargeback)->Ok_0.total() == s.total()
            - s.deposits[dispute.tx],
        processed(processed(s, dispute)->Ok_0, chargeback)->Ok_0.frozen,
{
}

/// A frozen account refuses every transaction of its client, whatever the
/// kind, as frozen.
pub proof fn law_frozen_refuses_all(s: AccountView, t: TransactionView)
    requires
        s.frozen,
        t.client == s.client,
    ensures
        processed(s, t) == Err::<AccountView, AccountError>(
            AccountError::RuleViolation(RuleError::AccountFrozen),
        ),
{
}

/// Only a chargeback freezes an account, and nothing thaws one.
pub proof fn law_frozen_by_chargeback_only(s: AccountView, t: TransactionView)
    requires
        processed(s, t) is Ok,
    ensures
        !s.frozen,
        processed(s, t)->Ok_0.frozen <==> t.kind == TransactionType::Chargeback,
{
}

/// How an accepted transaction moves the total: a deposit adds its amount,
/// a withdrawal takes its amount, a chargeback takes the amount of the
/// deposit it names, a dispute and a resolve leave the total alone.
pub proof fn law_total(s: AccountView, t: TransactionView)
    requires
        processed(s, t) is Ok,
    ensures
        processed(s, t)->Ok_0.total() == s.total() + match t.kind {
            TransactionType::Deposit => t.amount->0,
            TransactionType::Withdrawal => -t.amount->0,
            TransactionType::Dispute => 0,
            TransactionType::Resolve => 0,
            TransactionType::Chargeback => -s.deposits[t.tx],
        },
{
}

/// An accepted transaction never touches the client id of the account, and
/// changes the deposits on record only by adding its own deposit.
pub proof fn law_record_grows(s: AccountView, t: TransactionView)
    requires
        processed(s, t) is Ok,
    ensures
        processed(s, t)->Ok_0.client == s.client,
        processed(s, t)->Ok_0.deposits == if t.kind == TransactionType::Deposit {
            s.deposits.insert(t.tx, t.amount->0)
        } else {
            s.deposits
        },
{
}

/// Disputes are about deposits on record, and stay so: an accepted
/// transaction keeps every open dispute tied to a deposit.
pub proof fn law_disputes_on_record(s: AccountView, t: TransactionView)
    requires
        disputes_on_record(s),
        processed(s, t) is Ok,
    ensures
        disputes_on_record(processed(s, t)->Ok_0),
{
}

/// A record reaches the account of its own client and no other: that
/// client has an account afterwards, under its own id, every other account
/// is what it was, and no account is opened for anyone else. Where the
/// record is refused, the client's account is what it was too, or newly
/// opened.
pub proof fn law_one_account_per_record(accounts: Map<u16, AccountView>, t: TransactionView)
    requires
        keyed_by_client(accounts),
    ensures
        keyed_by_client(recorded(accounts, t)),
        recorded(accounts, t).dom() == accounts.dom().insert(t.client),
        forall|client: u16|
            client != t.client && accounts.contains_key(client) ==> #[trigger] recorded(
                accounts,
                t,
            )[client] == accounts[client],
        processed(account_of(accounts, t.client), t) is Err ==> recorded(accounts, t)[t.client]
            == account_of(accounts, t.client),
        !(processed(account_of(accounts, t.client), t) is Err
            && processed(account_of(accounts, t.client), t)->Err_0 is MismatchingAccounts),
{
}

} // verus!
