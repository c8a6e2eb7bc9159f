//! The input: one row of the ledger export, one leg of a money movement.

use crate::amount::{Amount, Dec};
use crate::transaction::Currency;
use vstd::prelude::*;

verus! {

/// The kind of movement that a row records.
#[derive(Clone, Copy, Debug, PartialEq, Eq)]
pub enum Type {
    Exchange,
    Transfer,
    Cashback,
    CardPayment,
    Topup,
}

/// The state of a movement. Only completed movements are kept.
#[derive(Clone, Copy, Debug, PartialEq, Eq)]
pub enum State {
    Completed,
}

/// One row of the ledger export.
#[derive(Clone, Debug, PartialEq)]
pub struct Row {
    pub kind: Type,
    pub started_date: String,
    pub completed_date: Option<String>,
    pub description: String,
    pub amount: Amount,
    pub fee: Amount,
    pub currency: Currency,
    pub original_amount: Amount,
    pub original_currency: Currency,
    pub settled_amount: Option<Amount>,
    pub settled_currency: Option<Currency>,
    pub state: State,
    pub balance: Option<Amount>,
}

/// What reconciliation reads of a [`Row`]: the mathematical content of a leg.
pub struct Leg {
    pub kind: Type,
    /// The date on which the movement started, an opaque key.
    pub date: Seq<char>,
    pub description: Seq<char>,
    /// Negative for funds that leave the currency, positive for funds that
    /// enter it.
    pub amount: Dec,
    /// A cost on top of the amount, with the same sign convention.
    pub fee: Dec,
    pub currency: Seq<char>,
}

impl Leg {
    /// The fee-inclusive amount `amount + fee`, `None` where the sum
    /// overflows.
    pub open spec fn net(self) -> Option<Dec> {
        self.amount.plus(self.fee)
    }
}

impl View for Row {
    type V = Leg;

    open spec fn view(&self) -> Leg {
        Leg {
            kind: self.kind,
            date: self.started_date@,
            description: self.description@,
            amount: self.amount@,
            fee: self.fee@,
            currency: self.currency@,
        }
    }
}

impl Row {
    /// The fee-inclusive amount of the leg, `None` where `amount + fee`
    /// overflows.
    pub fn net(&self) -> (r: Option<Amount>)
        ensures
            r is Some <==> self@.net() is Some,
            r is Some ==> Some(r->0@) == self@.net(),
    {
        self.amount.checked_add(self.fee)
    }
}

/// The views of a sequence of rows, in the same order.
pub open spec fn legs_of(rows: Seq<Row>) -> Seq<Leg> {
    rows.map_values(|row: Row| row@)
}

} // verus!
