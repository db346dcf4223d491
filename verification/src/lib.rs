//! An in-memory ledger: deposits, withdrawals and the dispute life cycle of
//! recorded transactions, replayed onto per-client accounts.
//!
//! Balances are fixed-point decimals. Sums, differences and comparisons are
//! computed by `rust_decimal`; every rule of the ledger around them is
//! verified.

pub mod amount;
pub mod types;
pub mod ledger;
pub mod record;
pub mod store;
pub mod laws;

pub use crate::amount::Amount;
pub use crate::ledger::Operation;
pub use crate::store::Store;
pub use crate::types::{Account, AccountSummary, ClientId, DisputeState, Error, Tx, TxId, TxType};
