//! Settlement: turning a response's change signals into ledger rows. The
//! wallet call itself happens outside the library; its outcome is handed in,
//! and this module says exactly which rows exist afterwards for every
//! possible outcome.
use vstd::prelude::*;

verus! {

use crate::amount::int_rep;
use crate::amount::i64_to_amount;
use crate::forward::SettlementPlan;
use crate::ledger::Ledger;
use crate::ledger::TransactionDirection;
use crate::wallet_api::ReceiveResponse;

/// Applies a settlement plan to the ledger, given the outcome of the
/// wallet's receive call where the plan asked for one.
///
/// A successful redemption writes exactly two transaction rows: an outgoing
/// row for the token spent on the call with the amount charged, then an
/// incoming row for the redeemed claim with the balance gained. A failed
/// redemption is abandoned silently: no row is written. A credit directive
/// writes exactly one unredeemed credit row. Nothing else changes.
pub fn apply_settlement(
    ledger: &mut Ledger,
    plan: &SettlementPlan,
    redeem_outcome: Option<Result<ReceiveResponse, String>>,
)
    requires
        plan.redeem is Some <==> redeem_outcome is Some,
        old(ledger).transactions@.len() + 2 <= 0x7fff_ffff_ffff_ffff,
        old(ledger).credits@.len() + 1 <= 0x7fff_ffff_ffff_ffff,
        redeem_outcome matches Some(Ok(o)) ==> -0x8000_0000_0000_0000 <= o.balance
            - o.initial_balance <= 0x7fff_ffff_ffff_ffff,
    ensures
        plan.redeem matches Some(rd) ==> (redeem_outcome matches Some(Ok(o)) ==> {
            &&& final(ledger).transactions@.len() == old(ledger).transactions@.len() + 2
            &&& final(ledger).transactions@.take(old(ledger).transactions@.len() as int) == old(
                ledger,
            ).transactions@
            &&& {
                let outgoing = final(ledger).transactions@[old(ledger).transactions@.len() as int];
                &&& outgoing.token@ == rd.spent_token@
                &&& outgoing.amount@ == rd.charged_amount@
                &&& outgoing.direction == TransactionDirection::Outgoing
            }
            &&& {
                let incoming = final(ledger).transactions@[old(ledger).transactions@.len() as int
                    + 1];
                &&& incoming.token@ == rd.claim@
                &&& incoming.amount@ == int_rep(o.balance - o.initial_balance)
                &&& incoming.direction == TransactionDirection::Incoming
            }
        }),
        !(redeem_outcome matches Some(Ok(o))) ==> final(ledger).transactions == old(
            ledger,
        ).transactions,
        plan.credit matches Some(cd) ==> {
            &&& final(ledger).credits@.len() == old(ledger).credits@.len() + 1
            &&& final(ledger).credits@.drop_last() == old(ledger).credits@
            &&& final(ledger).credits@.last().token@ == cd.token@
            &&& final(ledger).credits@.last().amount@ == cd.amount@
            &&& final(ledger).credits@.last().redeemed == false
        },
        plan.credit is None ==> final(ledger).credits == old(ledger).credits,
{
    match (&plan.redeem, &redeem_outcome) {
        (Some(rd), Some(Ok(o))) => {
            let gained = o.balance - o.initial_balance;
            let gained_amount = i64_to_amount(gained);
            ledger.add_transaction(
                rd.spent_token.as_str(),
                rd.charged_amount.as_str(),
                TransactionDirection::Outgoing,
            );
            ledger.add_transaction(
                rd.claim.as_str(),
                gained_amount.as_str(),
                TransactionDirection::Incoming,
            );
            proof {
                assert(ledger.transactions@.drop_last().drop_last() =~= old(
                    ledger,
                ).transactions@);
                assert(ledger.transactions@.take(old(ledger).transactions@.len() as int) =~= old(
                    ledger,
                ).transactions@);
            }
        },
        _ => {},
    }
    match &plan.credit {
        Some(cd) => {
            ledger.add_credit(cd.token.as_str(), cd.amount.as_str());
        },
        None => {},
    }
}

} // verus!
