//! The leg classifier: what one leg contributes to the transaction of its
//! pair.
//!
//! A leg is read for five signals: whether it is held in the target currency,
//! whether its description names the target currency, whether the
//! description says "Exchanged from" or "Exchanged to", and whether it
//! mentions a vault. Four rules follow from the signals, applied in this
//! order, a later rule overwriting what an earlier one wrote:
//!
//! | leg                      | description says                | effect                         |
//! |--------------------------|---------------------------------|--------------------------------|
//! | held in target           | "Exchanged from"                | buy; paid side and date        |
//! | held in target           | "Exchanged to"                  | sell; paid side and date       |
//! | any                      | "Exchanged from" and the target | sell; exchanged side           |
//! | any                      | "Exchanged to" and the target   | buy; exchanged side            |
//!
//! The amount written is always the leg's fee-inclusive amount.

use crate::amount::{Amount, Dec};
use crate::leg::{Leg, Row};
use crate::text::{contains, occurs_in};
use crate::transaction::{Currency, Trade, Transaction, TransactionType};
use vstd::prelude::*;

verus! {

/// The marker of a leg that received funds from another currency.
pub open spec fn exchanged_from() -> Seq<char> {
    "Exchanged from"@
}

/// The marker of a leg that sent funds to another currency.
pub open spec fn exchanged_to() -> Seq<char> {
    "Exchanged to"@
}

/// The marker of a movement that involves a vault.
pub open spec fn vault() -> Seq<char> {
    "Vault"@
}

/// What the classifier reads off a leg for a target currency.
#[derive(Clone, Copy, Debug, PartialEq, Eq)]
pub struct Signals {
    /// The leg is held in the target currency.
    pub carries_target: bool,
    /// The description contains the target currency's code.
    pub names_target: bool,
    /// The description contains "Exchanged from".
    pub from: bool,
    /// The description contains "Exchanged to".
    pub to: bool,
    /// The description contains "Vault".
    pub vault: bool,
}

impl Signals {
    /// The signals of a leg for a target currency.
    pub open spec fn of(leg: Leg, target: Seq<char>) -> Signals {
        Signals {
            carries_target: leg.currency == target,
            names_target: occurs_in(target, leg.description),
            from: occurs_in(exchanged_from(), leg.description),
            to: occurs_in(exchanged_to(), leg.description),
            vault: occurs_in(vault(), leg.description),
        }
    }

    /// First rule: the target currency was bought with this leg.
    pub open spec fn bought(self) -> bool {
        self.carries_target && self.from
    }

    /// Second rule: the target currency was sold with this leg.
    pub open spec fn sold(self) -> bool {
        self.carries_target && self.to
    }

    /// Third rule: this leg holds the proceeds of a sale of the target
    /// currency.
    pub open spec fn proceeds(self) -> bool {
        self.from && self.names_target
    }

    /// Fourth rule: this leg holds the cost of a purchase of the target
    /// currency.
    pub open spec fn cost(self) -> bool {
        self.to && self.names_target
    }

    /// The leg writes the paid side of the transaction, and its date.
    pub open spec fn pays(self) -> bool {
        self.bought() || self.sold()
    }

    /// The leg writes the exchanged side of the transaction.
    pub open spec fn exchanges(self) -> bool {
        self.proceeds() || self.cost()
    }

    /// Some rule applies, so the leg's fee-inclusive amount is needed.
    pub open spec fn contributes(self) -> bool {
        self.pays() || self.exchanges()
    }

    /// The direction that the leg gives the transaction: that of the last
    /// rule that applies, `None` where none applies.
    pub open spec fn direction(self) -> Option<TransactionType> {
        if self.cost() {
            Some(TransactionType::Buy)
        } else if self.proceeds() {
            Some(TransactionType::Sell)
        } else if self.sold() {
            Some(TransactionType::Sell)
        } else if self.bought() {
            Some(TransactionType::Buy)
        } else {
            None
        }
    }

    /// More than one rule applies: the leg is not of the shape that the
    /// rules were made for, and a later rule overwrites an earlier one.
    pub open spec fn conflicting(self) -> bool {
        ||| self.bought() && (self.sold() || self.proceeds() || self.cost())
        ||| self.sold() && (self.proceeds() || self.cost())
        ||| self.proceeds() && self.cost()
    }

    /// Whether some rule applies.
    pub fn applies(&self) -> (b: bool)
        ensures
            b == self.contributes(),
    {
        (self.carries_target || self.names_target) && (self.from || self.to)
    }

    /// Whether more than one rule applies.
    pub fn ambiguous(&self) -> (b: bool)
        ensures
            b == self.conflicting(),
    {
        (self.from && self.to && (self.carries_target || self.names_target)) || (
        self.carries_target && self.names_target && (self.from || self.to))
    }
}

/// The transaction `acc` after the classifier has applied a leg to it, where
/// `net` is the leg's fee-inclusive amount.
pub open spec fn classified(acc: Trade, leg: Leg, net: Dec, target: Seq<char>) -> Trade {
    let s = Signals::of(leg, target);
    Trade {
        kind: match s.direction() {
            Some(kind) => kind,
            None => acc.kind,
        },
        paid_currency: if s.pays() { target } else { acc.paid_currency },
        paid_amount: if s.pays() { net } else { acc.paid_amount },
        exchanged_currency: if s.exchanges() { leg.currency } else { acc.exchanged_currency },
        exchanged_amount: if s.exchanges() { net } else { acc.exchanged_amount },
        date: if s.pays() { leg.date } else { acc.date },
        is_vault: acc.is_vault || s.vault,
    }
}

/// The transaction that the classifier starts from: the given one, or a blank
/// one.
pub open spec fn accumulated(txn: Option<Transaction>) -> Trade {
    match txn {
        Some(txn) => txn@,
        None => Trade::blank(),
    }
}

/// The fee-inclusive amount that the classifier writes for a leg. Where the
/// sum overflows the value is arbitrary; no rule may apply to such a leg.
pub open spec fn net_of(leg: Leg) -> Dec {
    leg.net().unwrap()
}

/// Whether the classifier can be applied to a leg: where a rule applies, the
/// fee-inclusive amount does not overflow.
pub open spec fn classifiable(leg: Leg, target: Seq<char>) -> bool {
    Signals::of(leg, target).contributes() ==> leg.net() is Some
}

impl Row {
    /// Reads the leg's signals for a target currency.
    pub fn signals(&self, currency: &Currency) -> (s: Signals)
        ensures
            s == Signals::of(self@, currency@),
    {
        let description = self.description.as_str();
        Signals {
            carries_target: self.currency.eq(currency),
            names_target: contains(description, currency.as_str()),
            from: contains(description, "Exchanged from"),
            to: contains(description, "Exchanged to"),
            vault: contains(description, "Vault"),
        }
    }

    /// Applies the leg to a transaction, given the leg's fee-inclusive amount:
    /// every rule that matches writes its fields, in rule order.
    pub fn classify(&self, net: Amount, txn: Option<Transaction>, currency: &Currency) -> (r:
        Transaction)
        ensures
            r@ == classified(accumulated(txn), self@, net@, currency@),
    {
        let mut txn = match txn {
            Some(txn) => txn,
            None => Transaction::new(),
        };
        let s = self.signals(currency);
        if s.carries_target && s.from {
            txn.kind = TransactionType::Buy;
            txn.paid_amount = net;
            txn.paid_currency = currency.clone();
            txn.date = self.started_date.clone();
        }
        if s.carries_target && s.to {
            txn.kind = TransactionType::Sell;
            txn.paid_amount = net;
            txn.paid_currency = currency.clone();
            txn.date = self.started_date.clone();
        }
        if s.from && s.names_target {
            txn.kind = TransactionType::Sell;
            txn.exchanged_amount = net;
            txn.exchanged_currency = self.currency.clone();
        }
        if s.to && s.names_target {
            txn.kind = TransactionType::Buy;
            txn.exchanged_amount = net;
            txn.exchanged_currency = self.currency.clone();
        }
        if s.vault {
            txn.is_vault = true;
        }
        txn
    }

    /// Applies the leg to a transaction: the classifier, with the leg's own
    /// fee-inclusive amount.
    pub fn to_transaction(&self, txn: Option<Transaction>, currency: &Currency) -> (r: Transaction)
        requires
            classifiable(self@, currency@),
        ensures
            r@ == classified(accumulated(txn), self@, net_of(self@), currency@),
    {
        let net = if self.signals(currency).applies() {
            self.net().unwrap()
        } else {
            Amount::zero()
        };
        self.classify(net, txn, currency)
    }

    /// Applies the leg to a transaction where that is possible: `None` where a
    /// rule applies and the fee-inclusive amount overflows.
    pub fn try_to_transaction(&self, txn: Option<Transaction>, currency: &Currency) -> (r: Option<
        Transaction,
    >)
        ensures
            r is Some <==> classifiable(self@, currency@),
            r is Some ==> r->0@ == classified(accumulated(txn), self@, net_of(self@), currency@),
    {
        if self.signals(currency).applies() && self.net().is_none() {
            None
        } else {
            Some(self.to_transaction(txn, currency))
        }
    }
}

} // verus!
