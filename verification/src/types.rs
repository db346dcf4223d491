//! The records of the ledger: accounts, recorded transactions, summaries and
//! failures.

use crate::amount::Amount;
use vstd::prelude::*;

verus! {

pub type TxId = u32;

pub type ClientId = u16;

/// Where a recorded transaction stands in the dispute life cycle.
#[derive(Debug, Clone, Copy, PartialEq, Eq)]
pub enum DisputeState {
    Normal,
    Disputed,
    Resolved,
    ChargedBack,
}

impl Default for DisputeState {
    fn default() -> (r: DisputeState)
        ensures
            r == DisputeState::Normal,
    {
        DisputeState::Normal
    }
}

impl DisputeState {
    /// The states the life cycle allows directly after `self`:
    /// `Normal` to `Disputed`, `Disputed` to `Resolved` or `ChargedBack`.
    pub open spec fn may_become(self, next: DisputeState) -> bool {
        match (self, next) {
            (DisputeState::Normal, DisputeState::Disputed) => true,
            (DisputeState::Disputed, DisputeState::Resolved) => true,
            (DisputeState::Disputed, DisputeState::ChargedBack) => true,
            _ => false,
        }
    }
}

/// The kinds of transaction the ledger replays.
#[derive(Debug, Clone, Copy, PartialEq, Eq)]
pub enum TxType {
    Deposit,
    Withdrawal,
    Dispute,
    Resolve,
    Chargeback,
}

/// Why an operation was refused. The ledger is unchanged by a refused
/// operation.
#[derive(Debug, Clone, Copy, PartialEq, Eq)]
pub enum Error {
    /// The client has less available than the operation needs.
    InsufficientFunds { available: Amount, required: Amount },
    /// No transaction with this id is recorded.
    TxNotFound { txid: TxId },
    /// The transaction is not in the state that the action starts from.
    TxInWrongState { txid: TxId, action: TxType, state: DisputeState },
    /// A fault, not a domain failure: the account holds less than the
    /// disputed transaction's amount, so the hold cannot be released from it.
    HeldShortfall { held: Amount, required: Amount },
    /// A fault, not a domain failure: a new balance, or the account's total,
    /// has no decimal representation, or the held funds would turn negative.
    OutOfRange,
}

impl Error {
    /// The failures that ordinary input can cause.
    pub open spec fn is_domain(self) -> bool {
        match self {
            Error::InsufficientFunds { .. } => true,
            Error::TxNotFound { .. } => true,
            Error::TxInWrongState { .. } => true,
            Error::HeldShortfall { .. } => false,
            Error::OutOfRange => false,
        }
    }

    /// Whether this is a failure that ordinary input can cause, as opposed to
    /// a fault of the caller or of the arithmetic.
    pub fn is_domain_failure(&self) -> (r: bool)
        ensures
            r == self.is_domain(),
    {
        match self {
            Error::InsufficientFunds { .. } => true,
            Error::TxNotFound { .. } => true,
            Error::TxInWrongState { .. } => true,
            Error::HeldShortfall { .. } => false,
            Error::OutOfRange => false,
        }
    }
}

/// A recorded deposit or withdrawal.
#[derive(Debug, Clone, Copy, PartialEq, Eq)]
pub struct Tx {
    pub txid: TxId,
    pub tp: TxType,
    pub client: ClientId,
    pub amount: Amount,
    pub dispute_state: DisputeState,
}

impl Tx {
    /// A recorded transaction is a deposit or a withdrawal of an amount of
    /// zero or more.
    pub open spec fn wf(self) -> bool {
        &&& self.amount.wf()
        &&& self.amount.is_nonneg()
        &&& (self.tp == TxType::Deposit || self.tp == TxType::Withdrawal)
    }

    /// The same transaction in another dispute state.
    pub open spec fn in_state(self, state: DisputeState) -> Tx {
        Tx { dispute_state: state, ..self }
    }
}

/// What an account looks like from outside.
#[derive(Debug, Clone, Copy, PartialEq, Eq)]
pub struct AccountSummary {
    pub client: ClientId,
    pub available: Amount,
    pub held: Amount,
    pub total: Amount,
    pub locked: bool,
}

/// A client's balances.
#[derive(Debug, Clone, Copy, PartialEq, Eq)]
pub struct Account {
    pub id: ClientId,
    pub available: Amount,
    pub held: Amount,
    pub locked: bool,
}

impl Account {
    /// Both balances are amounts, the held funds are zero or more, and the
    /// total has a decimal representation.
    pub open spec fn wf(self) -> bool {
        &&& self.available.wf()
        &&& self.held.wf()
        &&& self.held.is_nonneg()
        &&& self.available.sum_of(self.held) is Some
    }

    /// The account of a client that has not been seen yet.
    pub open spec fn fresh(id: ClientId) -> Account {
        Account {
            id,
            available: Amount { mantissa: 0, scale: 0 },
            held: Amount { mantissa: 0, scale: 0 },
            locked: false,
        }
    }

    /// The account's summary: `total` is the decimal sum of `available` and
    /// `held`.
    pub open spec fn summary_of(self) -> AccountSummary {
        AccountSummary {
            client: self.id,
            available: self.available,
            held: self.held,
            total: self.available.sum_of(self.held).unwrap(),
            locked: self.locked,
        }
    }

    /// The account with new balances and lock, where that is an account:
    /// both balances exist, the held funds are zero or more and the total has
    /// a representation.
    pub open spec fn with_balances(
        self,
        available: Option<Amount>,
        held: Option<Amount>,
        locked: bool,
    ) -> Option<Account> {
        if available is Some && held is Some && held.unwrap().is_nonneg() && available.unwrap().sum_of(
            held.unwrap(),
        ) is Some {
            Some(Account { id: self.id, available: available.unwrap(), held: held.unwrap(), locked })
        } else {
            None
        }
    }

    /// The account of a new client: nothing available, nothing held, not
    /// locked.
    pub fn new(id: ClientId) -> (r: Account)
        ensures
            r == Account::fresh(id),
            r.wf(),
    {
        Account { id, available: Amount::zero(), held: Amount::zero(), locked: false }
    }

    /// The summary of the account.
    pub fn summary(&self) -> (r: AccountSummary)
        requires
            self.wf(),
        ensures
            r == self.summary_of(),
            r.total.wf(),
    {
        let total = self.available.checked_add(&self.held);
        AccountSummary {
            client: self.id,
            available: self.available,
            held: self.held,
            total: total.unwrap(),
            locked: self.locked,
        }
    }

    /// Refuses with `InsufficientFunds` unless the account has at least
    /// `required_amount` available.
    pub fn need(&self, required_amount: Amount) -> (r: Result<(), Error>)
        requires
            self.available.wf(),
            required_amount.wf(),
        ensures
            r == self.need_of(required_amount),
    {
        if self.available.at_least(&required_amount) {
            Ok(())
        } else {
            Err(Error::InsufficientFunds { available: self.available, required: required_amount })
        }
    }

    /// `Ok` exactly when `available` is numerically at least the amount.
    pub open spec fn need_of(self, required_amount: Amount) -> Result<(), Error> {
        if self.available.units() >= required_amount.units() {
            Ok(())
        } else {
            Err(Error::InsufficientFunds { available: self.available, required: required_amount })
        }
    }

    /// The account with the balances that an operation computed, for every
    /// outcome of the arithmetic: `None` where a balance is missing, the held
    /// funds are below zero or the total cannot be formed.
    pub fn rebalanced(
        &self,
        available: Option<Amount>,
        held: Option<Amount>,
        locked: bool,
    ) -> (r: Option<Account>)
        requires
            available is Some ==> available.unwrap().wf(),
            held is Some ==> held.unwrap().wf(),
        ensures
            r == self.with_balances(available, held, locked),
            r is Some ==> r.unwrap().wf(),
    {
        match (available, held) {
            (Some(a), Some(h)) => {
                if !h.is_sign_positive() {
                    return None;
                }
                match a.checked_add(&h) {
                    Some(_) => Some(Account { id: self.id, available: a, held: h, locked }),
                    None => None,
                }
            },
            _ => None,
        }
    }
}

} // verus!
