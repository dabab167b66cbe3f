//! The accounts of all clients, one per client id.

use crate::model::account::processed;
use crate::model::Account;
use crate::model::AccountError;
use crate::model::AccountView;
use crate::model::Transaction;
use crate::model::TransactionView;
use crate::rules::in_range;
use std::collections::HashMap;
use vstd::prelude::*;

verus! {

/// One account per client that a transaction has named so far.
#[derive(Debug)]
pub struct Ledger {
    accounts: HashMap<u16, Account>,
}

/// The account that the client `client` has in `accounts`: the one on
/// record, or a newly opened one where the client is not known yet.
pub open spec fn account_of(accounts: Map<u16, AccountView>, client: u16) -> AccountView {
    if accounts.contains_key(client) {
        accounts[client]
    } else {
        AccountView::opened(client)
    }
}

/// The accounts after one transaction: the account of the transaction's
/// client is opened if need be and takes the transaction, unless it refuses
/// it. No other account changes.
pub open spec fn recorded(accounts: Map<u16, AccountView>, t: TransactionView) -> Map<
    u16,
    AccountView,
> {
    match processed(account_of(accounts, t.client), t) {
        Ok(next) => accounts.insert(t.client, next),
        Err(_) => accounts.insert(t.client, account_of(accounts, t.client)),
    }
}

/// Whether every account is on record under its own client id.
pub open spec fn keyed_by_client(accounts: Map<u16, AccountView>) -> bool {
    forall|client: u16| #[trigger]
        accounts.contains_key(client) ==> accounts[client].client == client
}

impl View for Ledger {
    type V = Map<u16, AccountView>;

    closed spec fn view(&self) -> Map<u16, AccountView> {
        self.accounts@.map_values(|a: Account| a@)
    }
}

impl Ledger {
    /// What every ledger keeps: each account is on record under its own
    /// client id.
    pub open spec fn wf(&self) -> bool {
        keyed_by_client(self@)
    }

    /// A ledger without accounts.
    pub fn new() -> (r: Ledger)
        ensures
            r.wf(),
            r@ == Map::<u16, AccountView>::empty(),
    {
        Ledger { accounts: HashMap::new() }
    }

    /// Hands one transaction to the account of its client, opening that
    /// account first where the client is new.
    pub fn apply(&mut self, tx: Transaction) -> (r: Result<(), AccountError>)
        requires
            old(self).wf(),
            in_range(processed(account_of(old(self)@, tx.client), tx@)),
        ensures
            final(self).wf(),
            final(self)@ == recorded(old(self)@, tx@),
            match processed(account_of(old(self)@, tx.client), tx@) {
                Ok(_) => r is Ok,
                Err(e) => r == Err::<(), AccountError>(e),
            },
            r matches Err(e) ==> e is RuleViolation,
    {
        let account = self.accounts.entry(tx.client).or_insert(Account::new(tx.client));
        let r = account.process_transaction(tx);
        let ghost after = account@;
        assert(self@ =~= old(self)@.insert(tx.client, after));
        r
    }

    /// Whether the balances that `tx` leads to can be held: what
    /// [`Ledger::apply`] asks of its caller.
    pub fn has_room_for(&self, tx: &Transaction) -> (r: bool)
        ensures
            r == in_range(processed(account_of(self@, tx.client), tx@)),
    {
        match self.accounts.get(&tx.client) {
            Some(account) => account.has_room_for(tx),
            None => Account::new(tx.client).has_room_for(tx),
        }
    }

    /// The account of `client`, if a transaction has named that client.
    pub fn account(&self, client: u16) -> (r: Option<&Account>)
        ensures
            match r {
                Some(a) => self@.contains_key(client) && a@ == self@[client],
                None => !self@.contains_key(client),
            },
    {
        self.accounts.get(&client)
    }

    /// The clients that have an account, each once, in ascending order.
    pub fn clients(&self) -> (r: Vec<u16>)
        ensures
            forall|i: int, j: int| 0 <= i < j < r@.len() ==> r@[i] < r@[j],
            forall|client: u16| r@.contains(client) <==> self@.contains_key(client),
    {
        // Client ids are few: trying each in turn lists them in order.
        let mut found: Vec<u16> = Vec::new();
        let mut next: u32 = 0;
        while next <= 0xffff
            invariant
                next <= 0x1_0000,
                forall|i: int, j: int| 0 <= i < j < found@.len() ==> found@[i] < found@[j],
                forall|i: int| 0 <= i < found@.len() ==> found@[i] < next,
                forall|client: u16|
                    found@.contains(client) <==> client < next && self@.contains_key(client),
            decreases 0x1_0000 - next,
        {
            let client: u16 = next as u16;
            if self.accounts.contains_key(&client) {
                let ghost before = found@;
                found.push(client);
                assert forall|c: u16| found@.contains(c) <==> c < next + 1 && self@.contains_key(
                    c,
                ) by {
                    if before.contains(c) {
                        let i = choose|i: int| 0 <= i < before.len() && before[i] == c;
                        assert(found@[i] == c);
                    }
                    if c == client {
                        assert(found@[found@.len() - 1] == c);
                    }
                }
            }
            next = next + 1;
        }
        found
    }
}

} // verus!
