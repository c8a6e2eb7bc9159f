//! The leg filter: which rows of the export take part in reconciliation.

use crate::leg::{Leg, Row, Type};
use crate::text::{contains, occurs_in};
use crate::transaction::Currency;
use vstd::prelude::*;

verus! {

/// Whether a leg is one half of a currency exchange.
pub open spec fn is_exchange(leg: Leg) -> bool {
    leg.kind is Exchange
}

/// Whether a leg is one half of an exchange that involves the target
/// currency: it is held in the target currency, or its description names it.
pub open spec fn concerns(leg: Leg, target: Seq<char>) -> bool {
    is_exchange(leg) && (leg.currency == target || occurs_in(target, leg.description))
}

impl Row {
    /// Whether the row is one half of a currency exchange.
    pub fn is_exchange(&self) -> (b: bool)
        ensures
            b == is_exchange(self@),
    {
        match self.kind {
            Type::Exchange => true,
            _ => false,
        }
    }

    /// Whether the row is one half of an exchange that involves the given
    /// currency.
    pub fn concerns(&self, currency: &Currency) -> (b: bool)
        ensures
            b == concerns(self@, currency@),
    {
        self.is_exchange() && (self.currency.eq(currency) || contains(
            self.description.as_str(),
            currency.as_str(),
        ))
    }
}

/// The test that keeps the exchange legs among rows.
pub open spec fn exchange_legs() -> spec_fn(Row) -> bool {
    |row: Row| is_exchange(row@)
}

/// The test that keeps, among rows, the exchange legs that involve the target
/// currency.
pub open spec fn legs_in(target: Seq<char>) -> spec_fn(Row) -> bool {
    |row: Row| concerns(row@, target)
}

/// Keeps the rows that are exchange legs, in their order.
pub fn exchanges(rows: Vec<Row>) -> (kept: Vec<Row>)
    ensures
        kept@ == rows@.filter(exchange_legs()),
{
    let ghost all = rows@;
    let mut kept: Vec<Row> = Vec::new();
    for row in it: rows
        invariant
            it.seq() == all,
            kept@ == all.take(it.index() as int).filter(exchange_legs()),
    {
        proof {
            let i = it.index() as int;
            reveal(Seq::filter);
            assert(all.take(i + 1).drop_last() == all.take(i));
        }
        if row.is_exchange() {
            kept.push(row);
        }
    }
    assert(all.take(all.len() as int) == all);
    kept
}

/// Keeps the rows that are exchange legs and involve the given currency, in
/// their order.
pub fn exchanges_in_currency(rows: Vec<Row>, currency: &Currency) -> (kept: Vec<Row>)
    ensures
        kept@ == rows@.filter(legs_in(currency@)),
{
    let ghost all = rows@;
    let mut kept: Vec<Row> = Vec::new();
    for row in it: rows
        invariant
            it.seq() == all,
            kept@ == all.take(it.index() as int).filter(legs_in(currency@)),
    {
        proof {
            let i = it.index() as int;
            reveal(Seq::filter);
            assert(all.take(i + 1).drop_last() == all.take(i));
        }
        if row.concerns(currency) {
            kept.push(row);
        }
    }
    assert(all.take(all.len() as int) == all);
    kept
}

} // verus!
