//! Reconstruction of buy and sell transactions from the exchange legs of a
//! ledger export.
//!
//! Every currency exchange shows up in the ledger as two legs, one per
//! currency. This crate filters the legs that matter for a target currency,
//! pairs adjacent legs in chronological order, and classifies each pair as a
//! buy or a sell with fee-inclusive amounts.

pub mod amount;
pub mod classifier;
pub mod engine;
pub mod filter;
pub mod laws;
pub mod leg;
pub mod text;
pub mod transaction;

pub use amount::Amount;
pub use classifier::Signals;
pub use engine::{reconcile, to_transactions, try_to_transactions, unpaired, Pending};
pub use filter::{exchanges, exchanges_in_currency};
pub use leg::{Row, State, Type};
pub use transaction::{Currency, Transaction, TransactionType};
