//! The ledger as a mathematical value, and each operation as a function from
//! the ledger before it to the ledger after it or the reason it was refused.

use crate::amount::Amount;
use crate::types::{Account, AccountSummary, ClientId, DisputeState, Error, Tx, TxId, TxType};
use vstd::prelude::*;

verus! {

/// The accounts by client and the recorded transactions by id.
pub struct Ledger {
    pub accounts: Map<ClientId, Account>,
    pub history: Map<TxId, Tx>,
}

/// One operation on the ledger.
#[derive(Debug, Clone, Copy, PartialEq, Eq)]
pub enum Operation {
    Deposit { txid: TxId, client: ClientId, amount: Amount },
    Withdrawal { txid: TxId, client: ClientId, amount: Amount },
    Dispute { client: ClientId, txid: TxId },
    Resolve { client: ClientId, txid: TxId },
    Chargeback { client: ClientId, txid: TxId },
}

impl Operation {
    /// The operation that a record asks for. The amount of a record counts
    /// for a deposit or a withdrawal only.
    pub fn of_record(tp: TxType, client: ClientId, txid: TxId, amount: Amount) -> (r: Operation)
        ensures
            r == match tp {
                TxType::Deposit => Operation::Deposit { txid, client, amount },
                TxType::Withdrawal => Operation::Withdrawal { txid, client, amount },
                TxType::Dispute => Operation::Dispute { client, txid },
                TxType::Resolve => Operation::Resolve { client, txid },
                TxType::Chargeback => Operation::Chargeback { client, txid },
            },
    {
        match tp {
            TxType::Deposit => Operation::Deposit { txid, client, amount },
            TxType::Withdrawal => Operation::Withdrawal { txid, client, amount },
            TxType::Dispute => Operation::Dispute { client, txid },
            TxType::Resolve => Operation::Resolve { client, txid },
            TxType::Chargeback => Operation::Chargeback { client, txid },
        }
    }

    /// Whether the operation carries an amount of zero or more, where it
    /// carries one.
    pub fn is_wf(&self) -> (r: bool)
        ensures
            r == self.wf(),
    {
        match self {
            Operation::Deposit { amount, .. } => amount.is_wf() && amount.is_sign_positive(),
            Operation::Withdrawal { amount, .. } => amount.is_wf() && amount.is_sign_positive(),
            _ => true,
        }
    }

    /// The client whose account the operation works on.
    pub open spec fn client(self) -> ClientId {
        match self {
            Operation::Deposit { client, .. } => client,
            Operation::Withdrawal { client, .. } => client,
            Operation::Dispute { client, .. } => client,
            Operation::Resolve { client, .. } => client,
            Operation::Chargeback { client, .. } => client,
        }
    }

    /// The amount of a deposit or withdrawal is an amount of zero or more.
    pub open spec fn wf(self) -> bool {
        match self {
            Operation::Deposit { amount, .. } => amount.wf() && amount.is_nonneg(),
            Operation::Withdrawal { amount, .. } => amount.wf() && amount.is_nonneg(),
            _ => true,
        }
    }
}

impl Ledger {
    /// The ledger with no account and no transaction.
    pub open spec fn empty() -> Ledger {
        Ledger { accounts: Map::empty(), history: Map::empty() }
    }

    /// Every account is stored under its own id and well-formed; every
    /// recorded transaction is stored under its own id and well-formed.
    pub open spec fn wf(self) -> bool {
        &&& forall|c: ClientId| #[trigger]
            self.accounts.contains_key(c) ==> self.accounts[c].wf() && self.accounts[c].id == c
        &&& forall|t: TxId| #[trigger]
            self.history.contains_key(t) ==> self.history[t].wf() && self.history[t].txid == t
    }

    /// The account of a client: the stored one, or a fresh one for a client
    /// not seen yet.
    pub open spec fn account(self, client: ClientId) -> Account {
        if self.accounts.contains_key(client) {
            self.accounts[client]
        } else {
            Account::fresh(client)
        }
    }

    /// The ledger with one account replaced.
    pub open spec fn with_account(self, account: Account) -> Ledger {
        Ledger { accounts: self.accounts.insert(account.id, account), history: self.history }
    }

    /// The ledger with one transaction recorded, over any earlier one of the
    /// same id.
    pub open spec fn with_tx(self, tx: Tx) -> Ledger {
        Ledger { accounts: self.accounts, history: self.history.insert(tx.txid, tx) }
    }

    /// The ledger with a changed account and a changed transaction, or
    /// `OutOfRange` where the new balances make no account.
    pub open spec fn commit(self, account: Option<Account>, tx: Tx) -> Result<Ledger, Error> {
        match account {
            Some(a) => Ok(self.with_account(a).with_tx(tx)),
            None => Err(Error::OutOfRange),
        }
    }

    /// A deposit adds the amount to `available` and records the transaction.
    pub open spec fn deposit(self, txid: TxId, client: ClientId, amount: Amount) -> Result<
        Ledger,
        Error,
    > {
        let a = self.account(client);
        let tx = Tx {
            txid,
            tp: TxType::Deposit,
            client,
            amount,
            dispute_state: DisputeState::Normal,
        };
        self.commit(a.with_balances(a.available.sum_of(amount), Some(a.held), a.locked), tx)
    }

    /// A withdrawal needs the amount to be available, takes it from
    /// `available` and records the transaction.
    pub open spec fn withdrawal(self, txid: TxId, client: ClientId, amount: Amount) -> Result<
        Ledger,
        Error,
    > {
        let a = self.account(client);
        let tx = Tx {
            txid,
            tp: TxType::Withdrawal,
            client,
            amount,
            dispute_state: DisputeState::Normal,
        };
        match a.need_of(amount) {
            Err(e) => Err(e),
            Ok(_) => self.commit(
                a.with_balances(a.available.difference_of(amount), Some(a.held), a.locked),
                tx,
            ),
        }
    }

    /// The recorded transaction that an action refers to, where it is in the
    /// state that the action starts from.
    pub open spec fn tx_in_state(self, txid: TxId, action: TxType, from: DisputeState) -> Result<
        Tx,
        Error,
    > {
        if !self.history.contains_key(txid) {
            Err(Error::TxNotFound { txid })
        } else if self.history[txid].dispute_state != from {
            Err(Error::TxInWrongState { txid, action, state: self.history[txid].dispute_state })
        } else {
            Ok(self.history[txid])
        }
    }

    /// A dispute of a `Normal` transaction needs its amount to be available
    /// on the client's account, moves it from `available` to `held` and marks
    /// the transaction `Disputed`.
    pub open spec fn dispute(self, client: ClientId, txid: TxId) -> Result<Ledger, Error> {
        let a = self.account(client);
        match self.tx_in_state(txid, TxType::Dispute, DisputeState::Normal) {
            Err(e) => Err(e),
            Ok(tx) => match a.need_of(tx.amount) {
                Err(e) => Err(e),
                Ok(_) => self.commit(
                    a.with_balances(
                        a.available.difference_of(tx.amount),
                        a.held.sum_of(tx.amount),
                        a.locked,
                    ),
                    tx.in_state(DisputeState::Disputed),
                ),
            },
        }
    }

    /// Whether the account holds at least the amount.
    pub open spec fn held_covers(a: Account, amount: Amount) -> Result<(), Error> {
        if a.held.units() >= amount.units() {
            Ok(())
        } else {
            Err(Error::HeldShortfall { held: a.held, required: amount })
        }
    }

    /// Resolving a `Disputed` transaction moves its amount back from `held`
    /// to `available` and marks the transaction `Resolved`.
    pub open spec fn resolve(self, client: ClientId, txid: TxId) -> Result<Ledger, Error> {
        let a = self.account(client);
        match self.tx_in_state(txid, TxType::Resolve, DisputeState::Disputed) {
            Err(e) => Err(e),
            Ok(tx) => match Self::held_covers(a, tx.amount) {
                Err(e) => Err(e),
                Ok(_) => self.commit(
                    a.with_balances(
                        a.available.sum_of(tx.amount),
                        a.held.difference_of(tx.amount),
                        a.locked,
                    ),
                    tx.in_state(DisputeState::Resolved),
                ),
            },
        }
    }

    /// Charging back a `Disputed` transaction takes its amount from `held`,
    /// locks the account and marks the transaction `ChargedBack`.
    pub open spec fn chargeback(self, client: ClientId, txid: TxId) -> Result<Ledger, Error> {
        let a = self.account(client);
        match self.tx_in_state(txid, TxType::Chargeback, DisputeState::Disputed) {
            Err(e) => Err(e),
            Ok(tx) => match Self::held_covers(a, tx.amount) {
                Err(e) => Err(e),
                Ok(_) => self.commit(
                    a.with_balances(Some(a.available), a.held.difference_of(tx.amount), true),
                    tx.in_state(DisputeState::ChargedBack),
                ),
            },
        }
    }

    /// What one operation makes of the ledger.
    pub open spec fn apply(self, op: Operation) -> Result<Ledger, Error> {
        match op {
            Operation::Deposit { txid, client, amount } => self.deposit(txid, client, amount),
            Operation::Withdrawal { txid, client, amount } => self.withdrawal(txid, client, amount),
            Operation::Dispute { client, txid } => self.dispute(client, txid),
            Operation::Resolve { client, txid } => self.resolve(client, txid),
            Operation::Chargeback { client, txid } => self.chargeback(client, txid),
        }
    }

    /// The ledger after an operation: a refused operation leaves it as it
    /// was.
    pub open spec fn after(self, op: Operation) -> Ledger {
        match self.apply(op) {
            Ok(next) => next,
            Err(_) => self,
        }
    }

    /// The ledger after a sequence of operations, in order.
    pub open spec fn replay(self, ops: Seq<Operation>) -> Ledger
        decreases ops.len(),
    {
        if ops.len() == 0 {
            self
        } else {
            self.replay(ops.drop_last()).after(ops.last())
        }
    }

    /// What a recorded transaction asks its owner's account to hold, in
    /// units: its amount while it is disputed, nothing otherwise, and nothing
    /// of any other client.
    pub open spec fn held_share(self, client: ClientId, txid: TxId) -> int {
        if self.history.contains_key(txid) && self.history[txid].client == client
            && self.history[txid].dispute_state == DisputeState::Disputed {
            self.history[txid].amount.units()
        } else {
            0
        }
    }

    /// The sum of what the transactions with an id below `bound` ask the
    /// client's account to hold.
    pub open spec fn disputed_units(self, client: ClientId, bound: nat) -> int
        decreases bound,
    {
        if bound == 0 {
            0
        } else {
            self.disputed_units(client, (bound - 1) as nat) + self.held_share(
                client,
                (bound - 1) as TxId,
            )
        }
    }

    /// Every account holds exactly the amounts of its owner's disputed
    /// transactions.
    pub open spec fn held_reflects_disputes(self) -> bool {
        forall|c: ClientId|
            (#[trigger] self.account(c)).held.units() == self.disputed_units(
                c,
                TxId::MAX as nat + 1,
            )
    }

    /// The summaries of the accounts of the clients below `bound`, by
    /// increasing client id.
    pub open spec fn summaries_below(self, bound: nat) -> Seq<AccountSummary>
        decreases bound,
    {
        if bound == 0 {
            Seq::empty()
        } else {
            let rest = self.summaries_below((bound - 1) as nat);
            let c = (bound - 1) as ClientId;
            if self.accounts.contains_key(c) {
                rest.push(self.accounts[c].summary_of())
            } else {
                rest
            }
        }
    }

    /// What a successful operation on `client` reports: the summary of the
    /// client's account afterwards.
    pub open spec fn outcome(
        before: Ledger,
        step: Result<Ledger, Error>,
        client: ClientId,
        after: Ledger,
        reported: Result<AccountSummary, Error>,
    ) -> bool {
        match step {
            Ok(next) => after == next && reported == Ok::<AccountSummary, Error>(
                next.account(client).summary_of(),
            ),
            Err(e) => after == before && reported == Err::<AccountSummary, Error>(e),
        }
    }
}

} // verus!
