//! The reconciled output: one transaction per pair of exchange legs.

use crate::amount::{Amount, Dec};
use vstd::prelude::*;

verus! {

/// An ISO-like currency code.
pub type Currency = String;

/// The direction of a trade, seen from the target currency.
#[derive(Clone, Copy, Debug, PartialEq, Eq)]
pub enum TransactionType {
    Buy,
    Sell,
}

/// A trade in the target currency, put together from the two legs of one
/// exchange.
#[derive(Clone, Debug, PartialEq)]
pub struct Transaction {
    pub kind: TransactionType,
    /// The target currency.
    pub paid_currency: Currency,
    /// The fee-inclusive amount of the leg held in the target currency.
    pub paid_amount: Amount,
    /// The currency on the other side of the trade.
    pub exchanged_currency: Currency,
    /// The fee-inclusive amount of the leg on the other side.
    pub exchanged_amount: Amount,
    /// The date of the leg held in the target currency.
    pub date: String,
    /// Whether either leg came from a vault.
    pub is_vault: bool,
}

/// The mathematical content of a [`Transaction`].
pub struct Trade {
    pub kind: TransactionType,
    pub paid_currency: Seq<char>,
    pub paid_amount: Dec,
    pub exchanged_currency: Seq<char>,
    pub exchanged_amount: Dec,
    pub date: Seq<char>,
    pub is_vault: bool,
}

impl Trade {
    /// The trade that nothing has been written to yet: a buy of zero for
    /// zero, with empty currencies and date, not from a vault.
    pub open spec fn blank() -> Trade {
        Trade {
            kind: TransactionType::Buy,
            paid_currency: Seq::empty(),
            paid_amount: Dec { mantissa: 0, scale: 0 },
            exchanged_currency: Seq::empty(),
            exchanged_amount: Dec { mantissa: 0, scale: 0 },
            date: Seq::empty(),
            is_vault: false,
        }
    }
}

impl View for Transaction {
    type V = Trade;

    open spec fn view(&self) -> Trade {
        Trade {
            kind: self.kind,
            paid_currency: self.paid_currency@,
            paid_amount: self.paid_amount@,
            exchanged_currency: self.exchanged_currency@,
            exchanged_amount: self.exchanged_amount@,
            date: self.date@,
            is_vault: self.is_vault,
        }
    }
}

impl Transaction {
    /// A blank transaction for the classifier to fill in.
    pub fn new() -> (txn: Transaction)
        ensures
            txn@ == Trade::blank(),
    {
        Transaction {
            kind: TransactionType::Buy,
            paid_currency: String::new(),
            paid_amount: Amount::zero(),
            exchanged_currency: String::new(),
            exchanged_amount: Amount::zero(),
            date: String::new(),
            is_vault: false,
        }
    }
}

/// The views of a sequence of transactions, in the same order.
pub open spec fn trades_of(txns: Seq<Transaction>) -> Seq<Trade> {
    txns.map_values(|txn: Transaction| txn@)
}

} // verus!
