//! The escrow-accounting laws, stated on their own so a reader sees them
//! whole. Each is proved from the aggregate invariant that every operation
//! of the engine establishes and preserves.

use vstd::arithmetic::div_mod::{lemma_fundamental_div_mod, lemma_mod_bound};
use vstd::arithmetic::mul::{lemma_mul_inequality, lemma_mul_is_distributive_add};
use vstd::prelude::*;

use crate::escrow::{prorata, Escrow};
use crate::receipt::{sum_deposits, Receipt};

verus! {

/// Conservation: at all times, what a vault holds plus everything withdrawn
/// from it equals everything ever deposited into it — `amount_a` for vault
/// A and `total_deposits` for vault B. No operation creates or destroys
/// locked value; it only moves it between "held" and "withdrawn".
pub proof fn lemma_conservation(e: Escrow)
    requires
        e.wf(),
    ensures
        e.vault_a.balance + e.vault_a.withdrawn == e.order.amount_a,
        e.vault_b.balance + e.vault_b.withdrawn == e.order.total_deposits,
{
}

/// Receipt sum: at all times, the deposits recorded on an order's receipts
/// sum exactly to the order's `total_deposits` counter.
pub proof fn lemma_receipt_sum(e: Escrow)
    requires
        e.wf(),
    ensures
        sum_deposits(e.receipts@) == e.order.total_deposits,
{
}

/// The total of the pro-rata payouts over a sequence of receipts, each the
/// floor of `amount_a * deposit / total`.
pub open spec fn sum_prorata(amount_a: u64, total: u64, s: Seq<Receipt>) -> int
    recommends
        total > 0,
    decreases s.len(),
{
    if s.len() == 0 {
        0
    } else {
        sum_prorata(amount_a, total, s.drop_last()) + prorata(amount_a, s.last().deposit, total)
    }
}

/// Each floor division loses less than one unit of the payout scale: the
/// payout total times `total` falls short of `amount_a` times the deposit
/// sum by at most one `total - 1` per receipt.
proof fn lemma_sum_prorata_bounds(amount_a: u64, total: u64, s: Seq<Receipt>)
    requires
        total > 0,
    ensures
        sum_prorata(amount_a, total, s) * total <= amount_a * sum_deposits(s),
        amount_a * sum_deposits(s) <= sum_prorata(amount_a, total, s) * total + s.len() * (total
            - 1),
    decreases s.len(),
{
    let a = amount_a as int;
    let t = total as int;
    if s.len() == 0 {
        assert(sum_prorata(amount_a, total, s) * t == 0) by (nonlinear_arith)
            requires
                sum_prorata(amount_a, total, s) == 0,
        ;
    } else {
        let rest = s.drop_last();
        let d = s.last().deposit as int;
        let sp = sum_prorata(amount_a, total, rest);
        let q = (a * d) / t;
        lemma_sum_prorata_bounds(amount_a, total, rest);
        lemma_fundamental_div_mod(a * d, t);
        lemma_mod_bound(a * d, t);
        lemma_mul_is_distributive_add(a, sum_deposits(rest), d);
        assert((sp + q) * t == sp * t + q * t) by (nonlinear_arith);
        assert(q * t == t * q) by (nonlinear_arith);
        assert((rest.len() + 1) * (t - 1) == rest.len() * (t - 1) + (t - 1)) by (nonlinear_arith);
    }
}

/// Dust bound: when a filled order's receipts are all redeemed pro-rata,
/// the floor payouts give back all of `amount_a` except a residue smaller
/// than the number of receipts — at most one lost unit per receipt.
pub proof fn lemma_redemption_dust(amount_a: u64, total: u64, s: Seq<Receipt>)
    requires
        total > 0,
        total == sum_deposits(s),
        s.len() >= 1,
    ensures
        0 <= amount_a - sum_prorata(amount_a, total, s) <= s.len() - 1,
{
    let a = amount_a as int;
    let t = total as int;
    let n = s.len() as int;
    let sp = sum_prorata(amount_a, total, s);
    lemma_sum_prorata_bounds(amount_a, total, s);
    assert(sp <= a) by (nonlinear_arith)
        requires
            sp * t <= a * t,
            t > 0,
    ;
    assert(a - sp < n) by (nonlinear_arith)
        requires
            a * t <= sp * t + n * (t - 1),
            t > 0,
            n >= 1,
    ;
}

/// Pro-rata payouts can never overdraw the offer: over any receipts whose
/// deposits stay within the divisor, the floor payouts sum to at most
/// `amount_a`. Vault A, funded with `amount_a` at open, therefore covers
/// every redemption of a filled order.
pub proof fn lemma_payouts_within_offer(amount_a: u64, total: u64, s: Seq<Receipt>)
    requires
        total > 0,
        sum_deposits(s) <= total,
    ensures
        sum_prorata(amount_a, total, s) <= amount_a,
{
    let a = amount_a as int;
    let t = total as int;
    let sp = sum_prorata(amount_a, total, s);
    lemma_sum_prorata_bounds(amount_a, total, s);
    lemma_mul_inequality(sum_deposits(s), t, a);
    assert(sp <= a) by (nonlinear_arith)
        requires
            sp * t <= a * t,
            t > 0,
    ;
}

/// The dust bound on a live aggregate: redeeming every receipt of a filled
/// order pays out all of `amount_a` except at most one unit per receipt;
/// the residue stays in vault A until close sweeps it to the maker.
pub proof fn lemma_escrow_dust(e: Escrow)
    requires
        e.wf(),
        e.order.is_filled(),
        e.receipts@.len() >= 1,
    ensures
        0 <= e.order.amount_a - sum_prorata(e.order.amount_a, e.order.total_deposits, e.receipts@)
            <= e.receipts@.len() - 1,
{
    lemma_redemption_dust(e.order.amount_a, e.order.total_deposits, e.receipts@);
}

} // verus!
