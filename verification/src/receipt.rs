//! Receipts: per-taker deposit records scoped to one order.

use vstd::prelude::*;

verus! {

/// A receipt tracks one taker's cumulative contribution of asset B against
/// one order. It is created on the taker's first fill, merged on later
/// fills, and consumed exactly once by redemption.
#[derive(Clone, Copy, Debug, PartialEq, Eq, Structural)]
pub struct Receipt {
    /// The holder of the receipt (the taker).
    pub authority: u64,
    /// The cumulative amount of asset B deposited by the taker; positive.
    pub deposit: u64,
    /// The identifier of the order this receipt is redeemable against.
    pub order: u64,
    /// Set once the receipt has been redeemed; a consumed receipt cannot be
    /// redeemed again.
    pub is_redeemed: bool,
}

/// The sum of all deposits recorded in a sequence of receipts.
pub open spec fn sum_deposits(s: Seq<Receipt>) -> int
    decreases s.len(),
{
    if s.len() == 0 {
        0
    } else {
        sum_deposits(s.drop_last()) + s.last().deposit
    }
}

/// How many receipts in the sequence have been redeemed.
pub open spec fn count_redeemed(s: Seq<Receipt>) -> int
    decreases s.len(),
{
    if s.len() == 0 {
        0
    } else {
        count_redeemed(s.drop_last()) + if s.last().is_redeemed { 1int } else { 0int }
    }
}

/// No two receipts in the sequence belong to the same taker.
pub open spec fn distinct_authorities(s: Seq<Receipt>) -> bool {
    forall|i: int, j: int| 0 <= i < j < s.len() ==> s[i].authority != s[j].authority
}

/// Some receipt in the sequence belongs to the given taker.
pub open spec fn has_receipt(s: Seq<Receipt>, who: u64) -> bool {
    exists|j: int| 0 <= j < s.len() && s[j].authority == who
}

/// The position of the given taker's receipt. Meaningful when the taker
/// holds one; with distinct authorities it is the only such position.
pub open spec fn receipt_index(s: Seq<Receipt>, who: u64) -> int {
    choose|j: int| 0 <= j < s.len() && s[j].authority == who
}

/// Looks up a taker's receipt position. With distinct authorities the
/// returned position is exactly `receipt_index`.
pub fn find_receipt(receipts: &Vec<Receipt>, who: u64) -> (r: Option<usize>)
    ensures
        match r {
            Some(i) => i < receipts@.len() && receipts@[i as int].authority == who,
            None => !has_receipt(receipts@, who),
        },
        r is Some <==> has_receipt(receipts@, who),
        distinct_authorities(receipts@) ==> (r matches Some(i) ==> i == receipt_index(receipts@, who)),
{
    let n = receipts.len();
    let mut i: usize = 0;
    while i < n
        invariant
            n == receipts@.len(),
            i <= n,
            forall|j: int| 0 <= j < i ==> receipts@[j].authority != who,
        decreases n - i,
    {
        if receipts[i].authority == who {
            proof {
                if distinct_authorities(receipts@) {
                    let k = receipt_index(receipts@, who);
                    assert(0 <= k < receipts@.len() && receipts@[k].authority == who);
                }
            }
            return Some(i);
        }
        i = i + 1;
    }
    None
}

/// A deposit sum is never negative.
pub proof fn lemma_sum_deposits_nonneg(s: Seq<Receipt>)
    ensures
        sum_deposits(s) >= 0,
    decreases s.len(),
{
    if s.len() > 0 {
        lemma_sum_deposits_nonneg(s.drop_last());
    }
}

/// Each single deposit is bounded by the sum over the whole sequence.
pub proof fn lemma_deposit_le_sum(s: Seq<Receipt>, i: int)
    requires
        0 <= i < s.len(),
    ensures
        s[i].deposit <= sum_deposits(s),
    decreases s.len(),
{
    if i == s.len() - 1 {
        lemma_sum_deposits_nonneg(s.drop_last());
    } else {
        lemma_deposit_le_sum(s.drop_last(), i);
    }
}

/// Appending a receipt adds exactly its deposit to the sum.
pub proof fn lemma_sum_deposits_push(s: Seq<Receipt>, r: Receipt)
    ensures
        sum_deposits(s.push(r)) == sum_deposits(s) + r.deposit,
{
    assert(s.push(r).drop_last() =~= s);
}

/// Replacing one receipt changes the sum by the difference of the deposits.
pub proof fn lemma_sum_deposits_update(s: Seq<Receipt>, i: int, r: Receipt)
    requires
        0 <= i < s.len(),
    ensures
        sum_deposits(s.update(i, r)) == sum_deposits(s) - s[i].deposit + r.deposit,
    decreases s.len(),
{
    if i == s.len() - 1 {
        assert(s.update(i, r).drop_last() =~= s.drop_last());
        assert(s.update(i, r).last() == r);
    } else {
        assert(s.update(i, r).drop_last() =~= s.drop_last().update(i, r));
        assert(s.update(i, r).last() == s.last());
        lemma_sum_deposits_update(s.drop_last(), i, r);
    }
}

/// A redemption count is never negative and never exceeds the length.
pub proof fn lemma_count_redeemed_bounds(s: Seq<Receipt>)
    ensures
        0 <= count_redeemed(s) <= s.len(),
    decreases s.len(),
{
    if s.len() > 0 {
        lemma_count_redeemed_bounds(s.drop_last());
    }
}

/// Appending a receipt adds one to the count exactly when it is redeemed.
pub proof fn lemma_count_redeemed_push(s: Seq<Receipt>, r: Receipt)
    ensures
        count_redeemed(s.push(r)) == count_redeemed(s) + if r.is_redeemed { 1int } else { 0int },
{
    assert(s.push(r).drop_last() =~= s);
}

/// Replacing one receipt changes the count by the difference of the flags.
pub proof fn lemma_count_redeemed_update(s: Seq<Receipt>, i: int, r: Receipt)
    requires
        0 <= i < s.len(),
    ensures
        count_redeemed(s.update(i, r)) == count_redeemed(s)
            - (if s[i].is_redeemed { 1int } else { 0int })
            + (if r.is_redeemed { 1int } else { 0int }),
    decreases s.len(),
{
    if i == s.len() - 1 {
        assert(s.update(i, r).drop_last() =~= s.drop_last());
        assert(s.update(i, r).last() == r);
    } else {
        assert(s.update(i, r).drop_last() =~= s.drop_last().update(i, r));
        assert(s.update(i, r).last() == s.last());
        lemma_count_redeemed_update(s.drop_last(), i, r);
    }
}

} // verus!
