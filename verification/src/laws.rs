//! Laws of reconciliation: what holds of every pair of legs and of every
//! ledger.

use crate::amount::Dec;
use crate::classifier::{classified, net_of, vault, Signals};
use crate::engine::{newer_of, older_of, paired, reconciled};
use crate::filter::{concerns, is_exchange, legs_in};
use crate::leg::{Leg, Row};
use crate::text::occurs_in;
use crate::transaction::{Trade, TransactionType};
use vstd::prelude::*;

verus! {

/// Where no two rules apply to a leg, the classifier writes what the one
/// rule that applies says and leaves every other field as it was, but for the
/// vault flag: the first rule that matches is then also the last.
pub proof fn lemma_single_rule(acc: Trade, leg: Leg, net: Dec, target: Seq<char>)
    requires
        !Signals::of(leg, target).conflicting(),
    ensures
        ({
            let s = Signals::of(leg, target);
            let after = classified(acc, leg, net, target);
            let vaulted = acc.is_vault || s.vault;
            &&& s.bought() ==> after == (Trade {
                kind: TransactionType::Buy,
                paid_amount: net,
                paid_currency: target,
                date: leg.date,
                is_vault: vaulted,
                ..acc
            })
            &&& s.sold() ==> after == (Trade {
                kind: TransactionType::Sell,
                paid_amount: net,
                paid_currency: target,
                date: leg.date,
                is_vault: vaulted,
                ..acc
            })
            &&& s.proceeds() ==> after == (Trade {
                kind: TransactionType::Sell,
                exchanged_amount: net,
                exchanged_currency: leg.currency,
                is_vault: vaulted,
                ..acc
            })
            &&& s.cost() ==> after == (Trade {
                kind: TransactionType::Buy,
                exchanged_amount: net,
                exchanged_currency: leg.currency,
                is_vault: vaulted,
                ..acc
            })
            &&& !s.contributes() ==> after == (Trade { is_vault: vaulted, ..acc })
        }),
{
}

/// Two legs make exactly one transaction: that of the pair, the leg listed
/// last being the older one.
pub proof fn lemma_pair_is_one_transaction(newer: Leg, older: Leg, target: Seq<char>)
    ensures
        reconciled(seq![newer, older], target) == seq![paired(older, newer, target)],
{
    let legs = seq![newer, older];
    assert(older_of(legs, 0) == older);
    assert(newer_of(legs, 0) == newer);
    assert(reconciled(legs, target) =~= seq![paired(older, newer, target)]);
}

/// The leg of a pair that is held in the target currency decides the
/// direction.
///
/// Take a pair in which one leg says "Exchanged from" and the other
/// "Exchanged to", neither saying both, exactly one of them is held in the
/// target currency, and the description of the other names the target. If
/// the leg held in the target currency is the newer one, let its description
/// not name the target as well. Then the pair is a buy where the leg held in
/// the target currency says "Exchanged from", and a sell where it says
/// "Exchanged to"; that leg gives the paid side and the date, the other leg
/// the exchanged side.
pub proof fn lemma_direction_follows_carrier(older: Leg, newer: Leg, target: Seq<char>)
    requires
        ({
            let so = Signals::of(older, target);
            let sn = Signals::of(newer, target);
            &&& (so.from && !so.to && sn.to && !sn.from) || (so.to && !so.from && sn.from
                && !sn.to)
            &&& so.carries_target != sn.carries_target
            &&& so.carries_target ==> sn.names_target
            &&& sn.carries_target ==> so.names_target && !sn.names_target
        }),
    ensures
        ({
            let carrier = if older.currency == target { older } else { newer };
            let other = if older.currency == target { newer } else { older };
            paired(older, newer, target) == (Trade {
                kind: if Signals::of(carrier, target).from {
                    TransactionType::Buy
                } else {
                    TransactionType::Sell
                },
                paid_currency: target,
                paid_amount: net_of(carrier),
                exchanged_currency: other.currency,
                exchanged_amount: net_of(other),
                date: carrier.date,
                is_vault: occurs_in(vault(), older.description) || occurs_in(
                    vault(),
                    newer.description,
                ),
            })
        }),
{
}

/// The amounts of a pair's transaction are fee-inclusive amounts of its
/// legs: each side holds `amount + fee` of the last leg that wrote it, sign
/// included, and zero where no leg wrote it.
pub proof fn lemma_amounts_are_fee_inclusive(older: Leg, newer: Leg, target: Seq<char>)
    ensures
        ({
            let so = Signals::of(older, target);
            let sn = Signals::of(newer, target);
            let t = paired(older, newer, target);
            let zero = Dec { mantissa: 0, scale: 0 };
            &&& t.paid_amount == if sn.pays() {
                newer.amount.plus(newer.fee).unwrap()
            } else if so.pays() {
                older.amount.plus(older.fee).unwrap()
            } else {
                zero
            }
            &&& t.exchanged_amount == if sn.exchanges() {
                newer.amount.plus(newer.fee).unwrap()
            } else if so.exchanges() {
                older.amount.plus(older.fee).unwrap()
            } else {
                zero
            }
        }),
{
}

/// The date of a pair's transaction is that of the leg held in the target
/// currency: of the newer leg where it writes the paid side, else of the
/// older leg where that one does, and empty where neither does.
pub proof fn lemma_date_source(older: Leg, newer: Leg, target: Seq<char>)
    ensures
        paired(older, newer, target).date == if Signals::of(newer, target).pays() {
            newer.date
        } else if Signals::of(older, target).pays() {
            older.date
        } else {
            Seq::<char>::empty()
        },
{
}

/// A pair's transaction is flagged as a vault trade exactly when the
/// description of either leg mentions a vault.
pub proof fn lemma_vault_flag(older: Leg, newer: Leg, target: Seq<char>)
    ensures
        paired(older, newer, target).is_vault <==> occurs_in(vault(), older.description)
            || occurs_in(vault(), newer.description),
{
}

/// Of `n` legs, `n / 2` transactions come out, rounded down: the leg without
/// a partner yields none.
pub proof fn lemma_one_transaction_per_pair(legs: Seq<Leg>, target: Seq<char>)
    ensures
        reconciled(legs, target).len() == legs.len() / 2,
        legs.len() % 2 == 1 ==> 2 * reconciled(legs, target).len() == legs.len() - 1,
{
}

/// The transactions come out in the order of the reversed input: the `k`-th
/// transaction is made of the two legs at positions `2k` and `2k + 1` from
/// the end of the list.
pub proof fn lemma_output_follows_reversed_input(legs: Seq<Leg>, target: Seq<char>, k: int)
    requires
        0 <= k < legs.len() / 2,
    ensures
        reconciled(legs, target)[k] == paired(
            legs.reverse()[2 * k],
            legs.reverse()[2 * k + 1],
            target,
        ),
{
}

/// Whether some leg of a pair writes the date of the pair's transaction.
pub open spec fn dated(older: Leg, newer: Leg, target: Seq<char>) -> bool {
    Signals::of(older, target).pays() || Signals::of(newer, target).pays()
}

/// The transactions come out in chronological order.
///
/// Let `rank` order the dates, and let the legs be listed newest first under
/// it. If in every pair some leg writes the date, the dates of the
/// transactions never go down.
pub proof fn lemma_dates_in_order(
    legs: Seq<Leg>,
    target: Seq<char>,
    rank: spec_fn(Seq<char>) -> int,
)
    requires
        forall|i: int, j: int|
            0 <= i <= j < legs.len() ==> rank(#[trigger] legs[j].date) <= rank(
                #[trigger] legs[i].date,
            ),
        forall|k: int|
            0 <= k < legs.len() / 2 ==> dated(
                #[trigger] older_of(legs, k),
                newer_of(legs, k),
                target,
            ),
    ensures
        forall|a: int, b: int|
            0 <= a <= b < reconciled(legs, target).len() ==> rank(
                #[trigger] reconciled(legs, target)[a].date,
            ) <= rank(#[trigger] reconciled(legs, target)[b].date),
{
    let out = reconciled(legs, target);
    assert forall|a: int, b: int| 0 <= a <= b < out.len() implies rank(#[trigger] out[a].date)
        <= rank(#[trigger] out[b].date) by {
        let n = legs.len() as int;
        assert(dated(older_of(legs, a), newer_of(legs, a), target));
        assert(dated(older_of(legs, b), newer_of(legs, b), target));
        let ia = if Signals::of(newer_of(legs, a), target).pays() {
            n - 2 - 2 * a
        } else {
            n - 1 - 2 * a
        };
        let ib = if Signals::of(newer_of(legs, b), target).pays() {
            n - 2 - 2 * b
        } else {
            n - 1 - 2 * b
        };
        assert(out[a].date == legs[ia].date);
        assert(out[b].date == legs[ib].date);
        if a < b {
            assert(0 <= ib <= ia < n);
        }
    }
}

/// The currency filter goes by the currency or by the description: an
/// exchange leg held in another currency is kept where its description names
/// the target, and dropped where it does not.
pub proof fn lemma_kept_by_description(leg: Leg, target: Seq<char>)
    requires
        is_exchange(leg),
        leg.currency != target,
    ensures
        concerns(leg, target) <==> occurs_in(target, leg.description),
{
}

/// The rows that the currency filter keeps are exactly the rows that concern
/// the target currency.
pub proof fn lemma_kept_rows(rows: Seq<Row>, target: Seq<char>, row: Row)
    ensures
        rows.filter(legs_in(target)).contains(row) <==> rows.contains(row) && concerns(
            row@,
            target,
        ),
    decreases rows.len(),
{
    reveal(Seq::filter);
    if rows.len() > 0 {
        let front = rows.drop_last();
        lemma_kept_rows(front, target, row);
        if rows.contains(row) {
            let i = choose|i: int| 0 <= i < rows.len() && rows[i] == row;
            assert(i < rows.len() - 1 ==> front[i] == row);
        }
        if front.contains(row) {
            let i = choose|i: int| 0 <= i < front.len() && front[i] == row;
            assert(rows[i] == row);
        }
    }
}

} // verus!
