//! The reconciliation engine: pairs adjacent legs, oldest first, and turns
//! each pair into one transaction.
//!
//! The ledger lists its legs newest first. The engine walks them from the
//! last to the first, holding at most one leg back: a leg that arrives while
//! none is held is held as the older leg of the next pair; a leg that arrives
//! while one is held completes the pair. A leg still held at the end has no
//! partner and yields no transaction.

use crate::classifier::{classifiable, classified, net_of};
use crate::leg::{legs_of, Leg, Row};
use crate::transaction::{trades_of, Currency, Trade, Transaction};
use vstd::prelude::*;

verus! {

/// The state of the engine between two legs.
#[derive(Clone, Copy, Debug)]
pub enum Pending<'a> {
    /// No leg is held: the next leg is the older leg of a pair.
    Empty,
    /// The older leg of a pair is held: the next leg completes the pair.
    HoldingOlder(&'a Row),
}

/// The transaction of a pair of legs: the classifier applied to a blank
/// transaction, first for the older leg, then for the newer one.
pub open spec fn paired(older: Leg, newer: Leg, target: Seq<char>) -> Trade {
    classified(
        classified(Trade::blank(), older, net_of(older), target),
        newer,
        net_of(newer),
        target,
    )
}

/// The older leg of the `k`-th pair, counted from the oldest, of legs listed
/// newest first.
pub open spec fn older_of(legs: Seq<Leg>, k: int) -> Leg {
    legs[legs.len() - 1 - 2 * k]
}

/// The newer leg of the `k`-th pair, counted from the oldest, of legs listed
/// newest first.
pub open spec fn newer_of(legs: Seq<Leg>, k: int) -> Leg {
    legs[legs.len() - 2 - 2 * k]
}

/// The transactions of legs listed newest first: one for each pair of
/// adjacent legs, oldest pair first. Of an odd number of legs the newest one
/// has no partner.
pub open spec fn reconciled(legs: Seq<Leg>, target: Seq<char>) -> Seq<Trade> {
    Seq::new(legs.len() / 2, |k: int| paired(older_of(legs, k), newer_of(legs, k), target))
}

/// The leg that reconciliation leaves out: the newest one, where the number
/// of legs is odd.
pub open spec fn left_over<A>(legs: Seq<A>) -> Option<A> {
    if legs.len() % 2 == 1 {
        Some(legs[0])
    } else {
        None
    }
}

/// Whether every leg that belongs to a pair can be classified.
pub open spec fn reconcilable(legs: Seq<Leg>, target: Seq<char>) -> bool {
    forall|i: int| legs.len() % 2 <= i < legs.len() ==> classifiable(#[trigger] legs[i], target)
}

/// The state after the engine has taken one more leg.
pub open spec fn next_state<'a>(pending: Pending<'a>, row: &'a Row) -> Pending<'a> {
    match pending {
        Pending::Empty => Pending::HoldingOlder(row),
        Pending::HoldingOlder(_) => Pending::Empty,
    }
}

/// The transactions after the engine has taken one more leg.
pub open spec fn next_output(pending: Pending, row: Row, target: Seq<char>, out: Seq<Trade>) -> Seq<
    Trade,
> {
    match pending {
        Pending::Empty => out,
        Pending::HoldingOlder(older) => out.push(paired(older@, row@, target)),
    }
}

/// One transition of the engine: takes a leg, and either holds it back or
/// completes a pair with the leg held and appends the pair's transaction.
pub fn step<'a>(
    pending: Pending<'a>,
    row: &'a Row,
    currency: &Currency,
    txns: &mut Vec<Transaction>,
) -> (next: Pending<'a>)
    requires
        pending matches Pending::HoldingOlder(older) ==> classifiable(older@, currency@)
            && classifiable(row@, currency@),
    ensures
        next == next_state(pending, row),
        trades_of(final(txns)@) == next_output(pending, *row, currency@, trades_of(old(txns)@)),
        final(txns)@.len() == old(txns)@.len() + (if pending is Empty { 0int } else { 1int }),
{
    match pending {
        Pending::Empty => Pending::HoldingOlder(row),
        Pending::HoldingOlder(older) => {
            let txn = older.to_transaction(None, currency);
            let txn = row.to_transaction(Some(txn), currency);
            txns.push(txn);
            Pending::Empty
        },
    }
}

/// Reconciles legs listed newest first into transactions, oldest first, and
/// hands back the engine's last state: the leg that found no partner, if any.
pub fn reconcile<'a>(rows: &'a Vec<Row>, currency: &Currency) -> (r: (Vec<Transaction>, Pending<'a>))
    requires
        reconcilable(legs_of(rows@), currency@),
    ensures
        trades_of(r.0@) == reconciled(legs_of(rows@), currency@),
        r.0@.len() == rows@.len() / 2,
        match r.1 {
            Pending::Empty => left_over(rows@) is None,
            Pending::HoldingOlder(row) => left_over(rows@) == Some(*row),
        },
{
    let ghost legs = legs_of(rows@);
    let ghost target = currency@;
    let n = rows.len();
    let mut txns: Vec<Transaction> = Vec::new();
    let mut pending = Pending::Empty;
    let mut i: usize = n;
    while i > 0
        invariant
            i <= n,
            n == rows@.len(),
            legs == legs_of(rows@),
            target == currency@,
            reconcilable(legs, target),
            txns@.len() == (n - i) / 2,
            forall|k: int|
                0 <= k < txns@.len() ==> (#[trigger] trades_of(txns@)[k]) == paired(
                    older_of(legs, k),
                    newer_of(legs, k),
                    target,
                ),
            (n - i) % 2 == 0 ==> pending is Empty,
            (n - i) % 2 == 1 ==> pending == Pending::HoldingOlder(&rows@[i as int]),
        decreases i,
    {
        i = i - 1;
        let row = &rows[i];
        proof {
            if pending is HoldingOlder {
                assert(classifiable(legs[i as int], target));
                assert(classifiable(legs[i + 1], target));
            }
        }
        pending = step(pending, row, currency, &mut txns);
    }
    assert(trades_of(txns@) =~= reconciled(legs, target));
    (txns, pending)
}

/// Reconciles legs listed newest first into transactions, oldest first.
pub fn to_transactions(rows: &Vec<Row>, currency: &Currency) -> (txns: Vec<Transaction>)
    requires
        reconcilable(legs_of(rows@), currency@),
    ensures
        trades_of(txns@) == reconciled(legs_of(rows@), currency@),
        txns@.len() == rows@.len() / 2,
{
    reconcile(rows, currency).0
}

/// Reconciles legs where that is possible: `None` where a rule applies to a
/// leg of some pair and the leg's fee-inclusive amount overflows.
pub fn try_to_transactions(rows: &Vec<Row>, currency: &Currency) -> (r: Option<Vec<Transaction>>)
    ensures
        r is Some <==> reconcilable(legs_of(rows@), currency@),
        r matches Some(txns) ==> trades_of(txns@) == reconciled(legs_of(rows@), currency@)
            && txns@.len() == rows@.len() / 2,
{
    let ghost legs = legs_of(rows@);
    let n = rows.len();
    let mut i: usize = n % 2;
    while i < n
        invariant
            n % 2 <= i <= n,
            n == rows@.len(),
            legs == legs_of(rows@),
            forall|j: int| n % 2 <= j < i ==> classifiable(#[trigger] legs[j], currency@),
        decreases n - i,
    {
        let row = &rows[i];
        assert(legs[i as int] == row@);
        if row.signals(currency).applies() && row.net().is_none() {
            return None;
        }
        i = i + 1;
    }
    Some(to_transactions(rows, currency))
}

/// The leg that reconciliation leaves out: the first row, the newest leg,
/// where the number of rows is odd.
pub fn unpaired(rows: &Vec<Row>) -> (r: Option<&Row>)
    ensures
        r is Some <==> rows@.len() % 2 == 1,
        r matches Some(row) ==> *row == rows@[0],
{
    if rows.len() % 2 == 1 {
        Some(&rows[0])
    } else {
        None
    }
}

} // verus!
