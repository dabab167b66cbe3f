//! The state of one client.

use super::Transaction;
use super::TransactionType;
use super::TransactionView;
use crate::amount::representable;
use crate::amount::text_of_units;
use crate::amount::Amount;
use crate::rules;
use crate::rules::RuleError;
use std::collections::HashMap;
use std::collections::HashSet;
use vstd::prelude::*;

verus! {

/// Why an account refuses a transaction.
#[derive(Clone, Copy, Debug, PartialEq, Eq, Structural)]
pub enum AccountError {
    /// The transaction belongs to another client: the account's client
    /// first, the transaction's second.
    MismatchingAccounts(u16, u16),
    /// A rule of the engine refuses the transaction.
    RuleViolation(RuleError),
}

impl vstd::std_specs::convert::FromSpecImpl<RuleError> for AccountError {
    open spec fn obeys_from_spec() -> bool {
        true
    }

    open spec fn from_spec(e: RuleError) -> AccountError {
        AccountError::RuleViolation(e)
    }
}

impl From<RuleError> for AccountError {
    /// The violation of a rule as the error of an account.
    fn from(e: RuleError) -> (r: AccountError)
        ensures
            r == AccountError::RuleViolation(e),
    {
        AccountError::RuleViolation(e)
    }
}

/// The balances of one client, with what is needed to judge later disputes:
/// the amount of every accepted deposit and the deposits now under dispute.
#[derive(Debug)]
pub struct Account {
    pub client: u16,
    pub available: Amount,
    pub held: Amount,
    pub frozen: bool,
    pub(crate) deposits: HashMap<u32, Amount>,
    pub(crate) disputes: HashSet<u32>,
}

/// The balances of an account as they are written out: each amount as
/// decimal text without trailing zeros, the frozen flag as `locked`.
#[derive(Debug)]
pub struct Snapshot {
    pub client: u16,
    pub available: String,
    pub held: String,
    pub total: String,
    pub locked: bool,
}

/// An account as mathematics: balances in ten-thousandths, the deposits as a
/// map from transaction id to amount, the open disputes as a set of ids.
pub struct AccountView {
    pub client: u16,
    pub available: int,
    pub held: int,
    pub frozen: bool,
    pub deposits: Map<u32, int>,
    pub disputes: Set<u32>,
}

impl AccountView {
    /// The account of a client that no transaction has touched yet.
    pub open spec fn opened(client: u16) -> AccountView {
        AccountView {
            client,
            available: 0,
            held: 0,
            frozen: false,
            deposits: Map::empty(),
            disputes: Set::empty(),
        }
    }

    /// Everything the client owns: what is available and what is held.
    pub open spec fn total(self) -> int {
        self.available + self.held
    }

    /// Whether both balances can be held by an [`Amount`].
    pub open spec fn in_range(self) -> bool {
        representable(self.available) && representable(self.held)
    }
}

/// What the transaction `t` makes of the account `s`: the account that
/// follows, or the error that refuses `t`.
///
/// A transaction of another client is refused first, then any transaction
/// on a frozen account, then what the rule of `t`'s kind refuses.
pub open spec fn processed(s: AccountView, t: TransactionView) -> Result<
    AccountView,
    AccountError,
> {
    if s.client != t.client {
        Err(AccountError::MismatchingAccounts(s.client, t.client))
    } else {
        match rules::applied(s, t) {
            Ok(next) => Ok(next),
            Err(e) => Err(AccountError::RuleViolation(e)),
        }
    }
}

impl View for Account {
    type V = AccountView;

    open(crate) spec fn view(&self) -> AccountView {
        AccountView {
            client: self.client,
            available: self.available@,
            held: self.held@,
            frozen: self.frozen,
            deposits: self.deposits@.map_values(|a: Amount| a@),
            disputes: self.disputes@,
        }
    }
}

impl Default for Account {
    /// The account of client `0`, newly opened.
    fn default() -> (r: Account)
        ensures
            r@ == AccountView::opened(0),
    {
        Account::new(0)
    }
}

impl Account {
    /// Opens the account of `client`: nothing available, nothing held, not
    /// frozen, no deposit on record.
    pub fn new(client: u16) -> (r: Account)
        ensures
            r@ == AccountView::opened(client),
    {
        let r = Account {
            client,
            available: Amount::zero(),
            held: Amount::zero(),
            frozen: false,
            deposits: HashMap::new(),
            disputes: HashSet::new(),
        };
        assert(r@.deposits =~= Map::empty());
        r
    }

    /// What is available plus what is held, where that sum is representable.
    pub fn checked_total(&self) -> (r: Option<Amount>)
        ensures
            match r {
                Some(t) => representable(self@.total()) && t@ == self@.total(),
                None => !representable(self@.total()),
            },
    {
        self.available.checked_add(self.held)
    }

    /// What is available plus what is held.
    pub fn total(&self) -> (r: Amount)
        requires
            representable(self@.total()),
        ensures
            r@ == self@.total(),
    {
        self.available.plus(self.held)
    }

    /// The balances as they are written out.
    pub fn snapshot(&self) -> (r: Snapshot)
        requires
            representable(self@.total()),
        ensures
            r.client == self@.client,
            r.available@ == text_of_units(self@.available),
            r.held@ == text_of_units(self@.held),
            r.total@ == text_of_units(self@.total()),
            r.locked == self@.frozen,
    {
        Snapshot {
            client: self.client,
            available: self.available.to_text(),
            held: self.held.to_text(),
            total: self.total().to_text(),
            locked: self.frozen,
        }
    }

    /// The amount of the accepted deposit `tx_id`, if there is one.
    pub fn find_deposit(&self, tx_id: &u32) -> (r: Option<&Amount>)
        ensures
            match r {
                Some(a) => self@.deposits.contains_key(*tx_id) && a@ == self@.deposits[*tx_id],
                None => !self@.deposits.contains_key(*tx_id),
            },
    {
        self.deposits.get(tx_id)
    }

    /// The id `tx_id` itself if that deposit is under dispute now.
    pub fn has_dispute(&self, tx_id: &u32) -> (r: Option<&u32>)
        ensures
            match r {
                Some(id) => self@.disputes.contains(*tx_id) && *id == *tx_id,
                None => !self@.disputes.contains(*tx_id),
            },
    {
        self.disputes.get(tx_id)
    }

    /// Adds the transaction's amount to what is available and puts the
    /// deposit on record.
    pub(crate) fn deposit(&mut self, tx: &Transaction) -> (r: Result<(), RuleError>)
        requires
            rules::in_range(rules::deposited(old(self)@, tx.tx, tx@.amount)),
        ensures
            match rules::deposited(old(self)@, tx.tx, tx@.amount) {
                Ok(next) => r is Ok && final(self)@ == next,
                Err(e) => r == Err::<(), RuleError>(e) && *final(self) == *old(self),
            },
    {
        let amount = rules::require_amount(tx.tx, tx.amount)?;
        self.available = self.available.plus(amount);
        self.deposits.insert(tx.tx, amount);
        assert(self@.deposits =~= old(self)@.deposits.insert(tx.tx, amount@));
        Ok(())
    }

    /// Takes the transaction's amount from what is available.
    pub(crate) fn withdrawal(&mut self, tx: &Transaction) -> (r: Result<(), RuleError>)
        requires
            rules::in_range(rules::withdrawn(old(self)@, tx.tx, tx@.amount)),
        ensures
            match rules::withdrawn(old(self)@, tx.tx, tx@.amount) {
                Ok(next) => r is Ok && final(self)@ == next,
                Err(e) => r == Err::<(), RuleError>(e) && *final(self) == *old(self),
            },
    {
        let amount = rules::require_amount(tx.tx, tx.amount)?;
        rules::check_sufficient_funds(self, amount)?;
        self.available = self.available.minus(amount);
        Ok(())
    }

    /// Moves the amount of the deposit that the transaction names from
    /// available to held, and opens a dispute on it.
    pub(crate) fn dispute(&mut self, tx: &Transaction) -> (r: Result<(), RuleError>)
        requires
            rules::in_range(rules::disputed(old(self)@, tx.tx)),
        ensures
            match rules::disputed(old(self)@, tx.tx) {
                Ok(next) => r is Ok && final(self)@ == next,
                Err(e) => r == Err::<(), RuleError>(e) && *final(self) == *old(self),
            },
    {
        let amount = rules::get_deposit_amount(self, tx.tx)?;
        self.available = self.available.minus(amount);
        self.held = self.held.plus(amount);
        self.disputes.insert(tx.tx);
        Ok(())
    }

    /// Moves the amount of the disputed deposit that the transaction names
    /// back from held to available, and closes the dispute.
    pub(crate) fn resolve(&mut self, tx: &Transaction) -> (r: Result<(), RuleError>)
        requires
            rules::in_range(rules::resolved(old(self)@, tx.tx)),
        ensures
            match rules::resolved(old(self)@, tx.tx) {
                Ok(next) => r is Ok && final(self)@ == next,
                Err(e) => r == Err::<(), RuleError>(e) && *final(self) == *old(self),
            },
    {
        let amount = rules::get_deposit_amount(self, tx.tx)?;
        rules::check_dispute_exists(self, tx.tx)?;
        self.held = self.held.minus(amount);
        self.available = self.available.plus(amount);
        self.disputes.remove(&tx.tx);
        Ok(())
    }

    /// Takes the amount of the disputed deposit that the transaction names
    /// out of held, closes the dispute and freezes the account.
    pub(crate) fn chargeback(&mut self, tx: &Transaction) -> (r: Result<(), RuleError>)
        requires
            rules::in_range(rules::charged_back(old(self)@, tx.tx)),
        ensures
            match rules::charged_back(old(self)@, tx.tx) {
                Ok(next) => r is Ok && final(self)@ == next,
                Err(e) => r == Err::<(), RuleError>(e) && *final(self) == *old(self),
            },
    {
        let amount = rules::get_deposit_amount(self, tx.tx)?;
        rules::check_dispute_exists(self, tx.tx)?;
        self.held = self.held.minus(amount);
        self.frozen = true;
        self.disputes.remove(&tx.tx);
        Ok(())
    }

    /// Whether the balances that `tx` leads to, if it is not refused, can be
    /// held by an [`Amount`]: what [`Account::process_transaction`] asks of
    /// its caller.
    pub fn has_room_for(&self, tx: &Transaction) -> (r: bool)
        ensures
            r == rules::in_range(processed(self@, tx@)),
    {
        self.client != tx.client || rules::has_room_for(self, tx)
    }

    /// Applies one transaction to the account.
    ///
    /// A transaction of another client is refused, then any transaction on
    /// a frozen account; the rule of the transaction's kind decides the
    /// rest. A refused transaction leaves the account as it was.
    ///
    /// The caller sees to it that the balances stay representable;
    /// [`Account::has_room_for`] tells whether they do.
    pub fn process_transaction(&mut self, tx: Transaction) -> (r: Result<(), AccountError>)
        requires
            rules::in_range(processed(old(self)@, tx@)),
        ensures
            match processed(old(self)@, tx@) {
                Ok(next) => r is Ok && final(self)@ == next,
                Err(e) => r == Err::<(), AccountError>(e) && *final(self) == *old(self),
            },
    {
        if self.client != tx.client {
            return Err(AccountError::MismatchingAccounts(self.client, tx.client));
        }
        if let Err(e) = rules::check_not_frozen(self) {
            return Err(AccountError::RuleViolation(e));
        }
        let outcome = match tx.kind {
            TransactionType::Deposit => self.deposit(&tx),
            TransactionType::Withdrawal => self.withdrawal(&tx),
            TransactionType::Dispute => self.dispute(&tx),
            TransactionType::Resolve => self.resolve(&tx),
            TransactionType::Chargeback => self.chargeback(&tx),
        };
        match outcome {
            Ok(()) => Ok(()),
            Err(e) => Err(AccountError::RuleViolation(e)),
        }
    }
}

} // verus!
