//! The ledger in memory: two hash maps and one operation per kind of
//! transaction.

use crate::amount::Amount;
use crate::ledger::{Ledger, Operation};
use crate::types::{Account, AccountSummary, ClientId, DisputeState, Error, Tx, TxId, TxType};
use std::collections::HashMap;
use vstd::prelude::*;

verus! {

broadcast use vstd::std_specs::hash::group_hash_axioms;

/// The accounts and the recorded transactions.
pub struct Store {
    accounts: HashMap<ClientId, Account>,
    history: HashMap<TxId, Tx>,
}

impl View for Store {
    type V = Ledger;

    closed spec fn view(&self) -> Ledger {
        Ledger { accounts: self.accounts@, history: self.history@ }
    }
}

impl Store {
    /// The invariant of the store: that of the ledger it holds.
    pub open spec fn wf(&self) -> bool {
        self@.wf()
    }

    /// A store with no account and no transaction.
    pub fn new() -> (r: Store)
        ensures
            r@ == Ledger::empty(),
            r.wf(),
    {
        Store { accounts: HashMap::new(), history: HashMap::new() }
    }

    /// The account of a client, fresh if the client has not been seen. The
    /// store does not change.
    pub fn get_account(&self, id: ClientId) -> (r: Account)
        requires
            self.wf(),
        ensures
            r == self@.account(id),
            r.wf(),
            r.id == id,
    {
        match self.accounts.get(&id) {
            Some(a) => *a,
            None => Account::new(id),
        }
    }

    /// The summaries of all accounts, by increasing client id.
    pub fn list_accounts(&self) -> (r: Vec<AccountSummary>)
        requires
            self.wf(),
        ensures
            r@ == self@.summaries_below(ClientId::MAX as nat + 1),
    {
        let mut out: Vec<AccountSummary> = Vec::new();
        let mut next: u32 = 0;
        while next <= ClientId::MAX as u32
            invariant
                self.wf(),
                next <= ClientId::MAX as u32 + 1,
                out@ == self@.summaries_below(next as nat),
            decreases ClientId::MAX as u32 + 1 - next,
        {
            let c = next as ClientId;
            match self.accounts.get(&c) {
                Some(a) => {
                    out.push(a.summary());
                },
                None => {},
            }
            next = next + 1;
        }
        out
    }

    /// The recorded transaction `txid`, where it is in the state that
    /// `action` starts from.
    fn get_tx(&self, txid: TxId, action: TxType, from: DisputeState) -> (r: Result<Tx, Error>)
        requires
            self.wf(),
        ensures
            r == self@.tx_in_state(txid, action, from),
            r is Ok ==> r.unwrap().wf() && r.unwrap().txid == txid,
    {
        match self.history.get(&txid) {
            None => Err(Error::TxNotFound { txid }),
            Some(tx) => {
                let same = match (tx.dispute_state, from) {
                    (DisputeState::Normal, DisputeState::Normal) => true,
                    (DisputeState::Disputed, DisputeState::Disputed) => true,
                    (DisputeState::Resolved, DisputeState::Resolved) => true,
                    (DisputeState::ChargedBack, DisputeState::ChargedBack) => true,
                    _ => false,
                };
                if same {
                    Ok(*tx)
                } else {
                    Err(Error::TxInWrongState { txid, action, state: tx.dispute_state })
                }
            },
        }
    }

    /// Stores the changed account and transaction, or refuses with
    /// `OutOfRange` and changes nothing where there is no account to store.
    fn commit(&mut self, account: Option<Account>, tx: Tx) -> (r: Result<AccountSummary, Error>)
        requires
            old(self).wf(),
            tx.wf(),
            account is Some ==> account.unwrap().wf(),
        ensures
            final(self).wf(),
            match old(self)@.commit(account, tx) {
                Ok(next) => final(self)@ == next && r == Ok::<AccountSummary, Error>(
                    account.unwrap().summary_of(),
                ),
                Err(e) => final(self)@ == old(self)@ && r == Err::<AccountSummary, Error>(e),
            },
    {
        match account {
            Some(a) => {
                self.accounts.insert(a.id, a);
                self.history.insert(tx.txid, tx);
                Ok(a.summary())
            },
            None => Err(Error::OutOfRange),
        }
    }

    /// Adds `amount` to what the client has available and records the
    /// deposit under `txid`, over any earlier transaction of that id.
    /// Refused, with the store unchanged, only where the new balance or total
    /// has no decimal representation.
    pub fn handle_deposit(&mut self, txid: TxId, client: ClientId, amount: Amount) -> (r: Result<
        AccountSummary,
        Error,
    >)
        requires
            old(self).wf(),
            amount.wf(),
            amount.is_nonneg(),
        ensures
            final(self).wf(),
            Ledger::outcome(
                old(self)@,
                old(self)@.deposit(txid, client, amount),
                client,
                final(self)@,
                r,
            ),
    {
        let a = self.get_account(client);
        let tx = Tx {
            txid,
            tp: TxType::Deposit,
            client,
            amount,
            dispute_state: DisputeState::Normal,
        };
        let available = a.available.checked_add(&amount);
        self.commit(a.rebalanced(available, Some(a.held), a.locked), tx)
    }

    /// Takes `amount` from what the client has available and records the
    /// withdrawal under `txid`. Refused with `InsufficientFunds`, and the
    /// store unchanged, where less than `amount` is available.
    pub fn handle_withdrawal(&mut self, txid: TxId, client: ClientId, amount: Amount) -> (r:
        Result<AccountSummary, Error>)
        requires
            old(self).wf(),
            amount.wf(),
            amount.is_nonneg(),
        ensures
            final(self).wf(),
            Ledger::outcome(
                old(self)@,
                old(self)@.withdrawal(txid, client, amount),
                client,
                final(self)@,
                r,
            ),
    {
        let a = self.get_account(client);
        let tx = Tx {
            txid,
            tp: TxType::Withdrawal,
            client,
            amount,
            dispute_state: DisputeState::Normal,
        };
        match a.need(amount) {
            Err(e) => Err(e),
            Ok(_) => {
                let available = a.available.checked_sub(&amount);
                self.commit(a.rebalanced(available, Some(a.held), a.locked), tx)
            },
        }
    }

    /// Disputes the recorded transaction `txid` against the account of
    /// `client`: its amount moves from `available` to `held` and the
    /// transaction becomes `Disputed`. Refused, with the store unchanged,
    /// where the transaction is unknown, is not `Normal`, or its amount is not
    /// available.
    pub fn handle_dispute(&mut self, client: ClientId, txid: TxId) -> (r: Result<
        AccountSummary,
        Error,
    >)
        requires
            old(self).wf(),
        ensures
            final(self).wf(),
            Ledger::outcome(
                old(self)@,
                old(self)@.dispute(client, txid),
                client,
                final(self)@,
                r,
            ),
    {
        let a = self.get_account(client);
        match self.get_tx(txid, TxType::Dispute, DisputeState::Normal) {
            Err(e) => Err(e),
            Ok(tx) => match a.need(tx.amount) {
                Err(e) => Err(e),
                Ok(_) => {
                    let available = a.available.checked_sub(&tx.amount);
                    let held = a.held.checked_add(&tx.amount);
                    let marked = Tx { dispute_state: DisputeState::Disputed, ..tx };
                    self.commit(a.rebalanced(available, held, a.locked), marked)
                },
            },
        }
    }

    /// Refuses with `HeldShortfall` unless the account holds at least
    /// `amount`.
    fn held_covers(a: &Account, amount: &Amount) -> (r: Result<(), Error>)
        requires
            a.wf(),
            amount.wf(),
        ensures
            r == Ledger::held_covers(*a, *amount),
    {
        if a.held.at_least(amount) {
            Ok(())
        } else {
            Err(Error::HeldShortfall { held: a.held, required: *amount })
        }
    }

    /// Resolves the dispute of the recorded transaction `txid` on the
    /// account of `client`: its amount moves back from `held` to `available`
    /// and the transaction becomes `Resolved`. Refused, with the store
    /// unchanged, where the transaction is unknown or is not `Disputed`.
    pub fn handle_resolve(&mut self, client: ClientId, txid: TxId) -> (r: Result<
        AccountSummary,
        Error,
    >)
        requires
            old(self).wf(),
        ensures
            final(self).wf(),
            Ledger::outcome(
                old(self)@,
                old(self)@.resolve(client, txid),
                client,
                final(self)@,
                r,
            ),
    {
        let a = self.get_account(client);
        match self.get_tx(txid, TxType::Resolve, DisputeState::Disputed) {
            Err(e) => Err(e),
            Ok(tx) => match Self::held_covers(&a, &tx.amount) {
                Err(e) => Err(e),
                Ok(_) => {
                    let available = a.available.checked_add(&tx.amount);
                    let held = a.held.checked_sub(&tx.amount);
                    let marked = Tx { dispute_state: DisputeState::Resolved, ..tx };
                    self.commit(a.rebalanced(available, held, a.locked), marked)
                },
            },
        }
    }

    /// Charges back the disputed transaction `txid` on the account of
    /// `client`: its amount leaves `held`, the account is locked and the
    /// transaction becomes `ChargedBack`. Refused, with the store unchanged,
    /// where the transaction is unknown or is not `Disputed`.
    pub fn handle_chargeback(&mut self, client: ClientId, txid: TxId) -> (r: Result<
        AccountSummary,
        Error,
    >)
        requires
            old(self).wf(),
        ensures
            final(self).wf(),
            Ledger::outcome(
                old(self)@,
                old(self)@.chargeback(client, txid),
                client,
                final(self)@,
                r,
            ),
    {
        let a = self.get_account(client);
        match self.get_tx(txid, TxType::Chargeback, DisputeState::Disputed) {
            Err(e) => Err(e),
            Ok(tx) => match Self::held_covers(&a, &tx.amount) {
                Err(e) => Err(e),
                Ok(_) => {
                    let held = a.held.checked_sub(&tx.amount);
                    let marked = Tx { dispute_state: DisputeState::ChargedBack, ..tx };
                    self.commit(a.rebalanced(Some(a.available), held, true), marked)
                },
            },
        }
    }

    /// Applies one operation: the handler of its kind.
    pub fn apply(&mut self, op: Operation) -> (r: Result<AccountSummary, Error>)
        requires
            old(self).wf(),
            op.wf(),
        ensures
            final(self).wf(),
            Ledger::outcome(old(self)@, old(self)@.apply(op), op.client(), final(self)@, r),
            final(self)@ == old(self)@.after(op),
    {
        match op {
            Operation::Deposit { txid, client, amount } => self.handle_deposit(txid, client, amount),
            Operation::Withdrawal { txid, client, amount } => self.handle_withdrawal(
                txid,
                client,
                amount,
            ),
            Operation::Dispute { client, txid } => self.handle_dispute(client, txid),
            Operation::Resolve { client, txid } => self.handle_resolve(client, txid),
            Operation::Chargeback { client, txid } => self.handle_chargeback(client, txid),
        }
    }
}

} // verus!
