//! The lifecycle engine: one order, its receipts and its two escrow vaults,
//! mutated by the six operations.
//!
//! Every operation validates its guards before it touches any state, so a
//! failure leaves the whole trio exactly as it was. Every success preserves
//! the aggregate invariant `wf`, which carries the conservation and
//! receipt-sum laws.

use vstd::arithmetic::div_mod::{lemma_div_is_ordered, lemma_div_multiples_vanish};
use vstd::arithmetic::mul::lemma_mul_inequality;
use vstd::prelude::*;

use crate::error::ProtobookError;
use crate::order::Order;
use crate::receipt::{
    count_redeemed, distinct_authorities, find_receipt, has_receipt, lemma_count_redeemed_bounds,
    lemma_count_redeemed_push, lemma_count_redeemed_update, lemma_deposit_le_sum,
    lemma_sum_deposits_push, lemma_sum_deposits_update, receipt_index, sum_deposits, Receipt,
};
use crate::vault::Vault;

verus! {

/// One order together with the state it exclusively owns: the receipts
/// issued against it and the two vaults escrowing its assets.
pub struct Escrow {
    /// The order record.
    pub order: Order,
    /// All receipts issued against the order, one per taker.
    pub receipts: Vec<Receipt>,
    /// The vault holding asset A, funded by the maker at open.
    pub vault_a: Vault,
    /// The vault holding asset B, accumulating taker deposits.
    pub vault_b: Vault,
}

/// The arguments of an open call are acceptable: positive amounts, a fee
/// within the requested amount, a deadline in the future and two distinct
/// assets.
pub open spec fn valid_open_args(
    amount_a: u64,
    amount_b: u64,
    expires_at: i64,
    fee: u64,
    mint_a: u64,
    mint_b: u64,
    now: i64,
) -> bool {
    amount_a > 0 && amount_b > 0 && fee <= amount_b && expires_at > now && mint_a != mint_b
}

/// How much of a requested deposit an order actually takes: the request,
/// capped at the remaining room. An over-sized deposit is capped, never
/// rejected.
pub open spec fn fill_effective(o: Order, amount: u64) -> u64
    recommends
        o.total_deposits <= o.amount_b,
{
    let room = (o.amount_b - o.total_deposits) as u64;
    if amount <= room {
        amount
    } else {
        room
    }
}

/// A taker's pro-rata share of the locked asset A: the floor of
/// `amount_a * deposit / total`. Floor division can leave dust behind.
pub open spec fn prorata(amount_a: u64, deposit: u64, total: u64) -> int
    recommends
        total > 0,
{
    (amount_a * deposit) / (total as int)
}

/// What a redemption pays out: a pro-rata share of asset A when the order
/// was filled, the taker's own deposit of asset B back when it was not.
pub open spec fn redeem_payout(o: Order, deposit: u64) -> int {
    if o.is_filled() {
        prorata(o.amount_a, deposit, o.total_deposits)
    } else {
        deposit as int
    }
}

impl Escrow {
    /// The aggregate invariant, established by `process_open` and preserved
    /// by every operation.
    ///
    /// It carries the two escrow-accounting laws: each vault's balance plus
    /// everything withdrawn from it equals everything deposited into it
    /// (`amount_a` for vault A, `total_deposits` for vault B), and the
    /// receipts' deposits sum to `total_deposits`.
    pub open spec fn wf(self) -> bool {
        &&& self.order.wf()
        &&& self.vault_a.mint == self.order.mint_a
        &&& self.vault_b.mint == self.order.mint_b
        &&& self.vault_a.total_in() == self.order.amount_a
        &&& self.vault_b.total_in() == self.order.total_deposits
        &&& sum_deposits(self.receipts@) == self.order.total_deposits
        &&& count_redeemed(self.receipts@) == self.order.total_redeemed
        &&& self.receipts@.len() <= self.order.total_receipts
        &&& distinct_authorities(self.receipts@)
        &&& forall|i: int|
            0 <= i < self.receipts@.len() ==> (#[trigger] self.receipts@[i]).deposit > 0
                && self.receipts@[i].order == self.order.id
    }

    /// Two aggregates hold the same state, receipt for receipt.
    pub open spec fn same_state(self, other: Escrow) -> bool {
        &&& self.order == other.order
        &&& self.receipts@ == other.receipts@
        &&& self.vault_a == other.vault_a
        &&& self.vault_b == other.vault_b
    }

    /// Opens an order: allocates the record with zeroed counters, binds two
    /// fresh vaults to it, and locks `amount_a` of asset A, debited from
    /// the maker's balance. Returns the new aggregate and the maker's
    /// remaining balance of asset A.
    pub fn process_open(
        authority: u64,
        fee_collector: u64,
        amount_a: u64,
        amount_b: u64,
        expires_at: i64,
        fee: u64,
        id: u64,
        mint_a: u64,
        mint_b: u64,
        now: i64,
        maker_balance_a: u64,
    ) -> (r: Result<(Escrow, u64), ProtobookError>)
        ensures
            r is Ok <==> valid_open_args(amount_a, amount_b, expires_at, fee, mint_a, mint_b, now)
                && amount_a <= maker_balance_a,
            !valid_open_args(amount_a, amount_b, expires_at, fee, mint_a, mint_b, now) ==> r
                == Err::<(Escrow, u64), ProtobookError>(ProtobookError::InvalidArgument),
            valid_open_args(amount_a, amount_b, expires_at, fee, mint_a, mint_b, now)
                && amount_a > maker_balance_a ==> r == Err::<(Escrow, u64), ProtobookError>(
                ProtobookError::InsufficientBalance,
            ),
            r matches Ok(p) ==> {
                &&& p.0.wf()
                &&& p.0.order == (Order {
                    authority,
                    amount_a,
                    amount_b,
                    expires_at,
                    fee,
                    fee_collector,
                    id,
                    mint_a,
                    mint_b,
                    total_deposits: 0u64,
                    total_receipts: 0u64,
                    total_redeemed: 0u64,
                    is_collected: false,
                })
                &&& p.0.receipts@ == Seq::<Receipt>::empty()
                &&& p.0.vault_a == (Vault { mint: mint_a, balance: amount_a, withdrawn: 0u64 })
                &&& p.0.vault_b == (Vault { mint: mint_b, balance: 0u64, withdrawn: 0u64 })
                &&& p.1 == maker_balance_a - amount_a
            },
    {
        if amount_a == 0 || amount_b == 0 || fee > amount_b || expires_at <= now || mint_a
            == mint_b {
            return Err(ProtobookError::InvalidArgument);
        }
        if amount_a > maker_balance_a {
            return Err(ProtobookError::InsufficientBalance);
        }
        let order = Order {
            authority,
            amount_a,
            amount_b,
            expires_at,
            fee,
            fee_collector,
            id,
            mint_a,
            mint_b,
            total_deposits: 0,
            total_receipts: 0,
            total_redeemed: 0,
            is_collected: false,
        };
        let mut vault_a = Vault::new(mint_a);
        let vault_b = Vault::new(mint_b);
        vault_a.lock(amount_a);
        let escrow = Escrow { order, receipts: Vec::new(), vault_a, vault_b };
        Ok((escrow, maker_balance_a - amount_a))
    }

    /// Deposits asset B against an open order. The request is capped at the
    /// remaining room; the capped amount is debited from the taker's
    /// balance, locked in vault B, and recorded on the taker's receipt,
    /// which is created on a first fill and merged on later ones. Every
    /// fill counts one deposit event on `total_receipts`. A deposit that
    /// completes the subscription pulls `expires_at` down to `now`, closing
    /// the order to further fills. Returns the taker's updated cumulative
    /// deposit and remaining balance of asset B.
    pub fn process_fill(&mut self, taker: u64, amount: u64, now: i64, taker_balance_b: u64) -> (r:
        Result<(u64, u64), ProtobookError>)
        requires
            old(self).wf(),
        ensures
            final(self).wf(),
            r is Err ==> final(self).same_state(*old(self)),
            amount == 0 ==> r == Err::<(u64, u64), ProtobookError>(ProtobookError::InvalidArgument),
            amount > 0 && !old(self).order.is_open(now) ==> r == Err::<(u64, u64), ProtobookError>(
                ProtobookError::OrderNotOpen,
            ),
            amount > 0 && old(self).order.is_open(now) && old(self).order.is_filled() ==> r
                == Err::<(u64, u64), ProtobookError>(ProtobookError::OrderFull),
            amount > 0 && old(self).order.is_open(now) && !old(self).order.is_filled()
                && fill_effective(old(self).order, amount) > taker_balance_b ==> r == Err::<
                (u64, u64),
                ProtobookError,
            >(ProtobookError::InsufficientBalance),
            r is Ok <==> amount > 0 && old(self).order.is_open(now) && !old(self).order.is_filled()
                && fill_effective(old(self).order, amount) <= taker_balance_b,
            r matches Ok(p) ==> ({
                let eff = fill_effective(old(self).order, amount);
                let full = old(self).order.total_deposits + eff == old(self).order.amount_b;
                &&& final(self).order == (Order {
                    total_deposits: (old(self).order.total_deposits + eff) as u64,
                    total_receipts: (old(self).order.total_receipts + 1) as u64,
                    expires_at: if full {
                        now
                    } else {
                        old(self).order.expires_at
                    },
                    ..old(self).order
                })
                &&& final(self).vault_a == old(self).vault_a
                &&& final(self).vault_b == (Vault {
                    balance: (old(self).vault_b.balance + eff) as u64,
                    ..old(self).vault_b
                })
                &&& (if has_receipt(old(self).receipts@, taker) {
                    let j = receipt_index(old(self).receipts@, taker);
                    let prev = old(self).receipts@[j];
                    &&& final(self).receipts@ == old(self).receipts@.update(
                        j,
                        (Receipt { deposit: (prev.deposit + eff) as u64, ..prev }),
                    )
                    &&& p.0 == prev.deposit + eff
                } else {
                    &&& final(self).receipts@ == old(self).receipts@.push(
                        (Receipt { authority: taker, deposit: eff, order: old(self).order.id, is_redeemed: false }),
                    )
                    &&& p.0 == eff
                })
                &&& p.1 == taker_balance_b - eff
            }),
            final(self).order.total_deposits >= old(self).order.total_deposits,
            final(self).order.total_receipts >= old(self).order.total_receipts,
            final(self).order.total_redeemed == old(self).order.total_redeemed,
            final(self).order.expires_at <= old(self).order.expires_at,
    {
        if amount == 0 {
            return Err(ProtobookError::InvalidArgument);
        }
        if let Err(e) = self.order.require_open(now) {
            return Err(e);
        }
        if self.order.total_deposits >= self.order.amount_b {
            return Err(ProtobookError::OrderFull);
        }
        let room = self.order.amount_b - self.order.total_deposits;
        let eff = if amount <= room {
            amount
        } else {
            room
        };
        if eff > taker_balance_b {
            return Err(ProtobookError::InsufficientBalance);
        }

        // Lock the capped deposit in vault B. Its balance never passes
        // `total_deposits`, which stays within `amount_b`.
        self.vault_b.lock(eff);

        // Create the taker's receipt or merge into it.
        let taker_total: u64;
        match find_receipt(&self.receipts, taker) {
            Some(i) => {
                proof {
                    lemma_deposit_le_sum(self.receipts@, i as int);
                }
                let mut rec = self.receipts[i];
                rec.deposit = rec.deposit + eff;
                taker_total = rec.deposit;
                proof {
                    lemma_sum_deposits_update(self.receipts@, i as int, rec);
                    lemma_count_redeemed_update(self.receipts@, i as int, rec);
                }
                self.receipts[i] = rec;
            },
            None => {
                let rec = Receipt {
                    authority: taker,
                    deposit: eff,
                    order: self.order.id,
                    is_redeemed: false,
                };
                taker_total = eff;
                proof {
                    lemma_sum_deposits_push(self.receipts@, rec);
                    lemma_count_redeemed_push(self.receipts@, rec);
                }
                self.receipts.push(rec);
            },
        }

        // Record the deposit on the order's counters.
        self.order.total_deposits = self.order.total_deposits + eff;
        self.order.total_receipts = self.order.total_receipts + 1;

        // A full subscription ends the offer early.
        if self.order.total_deposits == self.order.amount_b {
            self.order.expires_at = now;
        }

        Ok((taker_total, taker_balance_b - eff))
    }

    /// The maker's unilateral early termination: pulls `expires_at` down to
    /// `now`, putting the order in the expired regime. No asset moves here;
    /// proceeds are recovered later through collect and redeem.
    pub fn process_cancel(&mut self, actor: u64, now: i64) -> (r: Result<(), ProtobookError>)
        requires
            old(self).wf(),
        ensures
            final(self).wf(),
            r is Err ==> final(self).same_state(*old(self)),
            actor != old(self).order.authority ==> r == Err::<(), ProtobookError>(
                ProtobookError::NotAuthorized,
            ),
            actor == old(self).order.authority && !old(self).order.is_open(now) ==> r == Err::<
                (),
                ProtobookError,
            >(ProtobookError::OrderNotOpen),
            r is Ok <==> actor == old(self).order.authority && old(self).order.is_open(now),
            r is Ok ==> final(self).order == (Order { expires_at: now, ..old(self).order })
                && final(self).receipts@ == old(self).receipts@ && final(self).vault_a == old(
                self,
            ).vault_a && final(self).vault_b == old(self).vault_b,
            final(self).order.expires_at <= old(self).order.expires_at,
            final(self).order.total_deposits == old(self).order.total_deposits,
            final(self).order.total_receipts == old(self).order.total_receipts,
            final(self).order.total_redeemed == old(self).order.total_redeemed,
    {
        if let Err(e) = self.order.require_authority(actor) {
            return Err(e);
        }
        if let Err(e) = self.order.require_open(now) {
            return Err(e);
        }
        self.order.expires_at = now;
        Ok(())
    }

    /// The maker's settlement on an expired order. On a filled order the
    /// maker withdraws the B proceeds minus the fee, and the fee goes to
    /// the fee collector, both out of vault B; on an unfilled order the
    /// maker's original `amount_a` of asset A comes back out of vault A.
    /// `mint` must name the asset of the branch taken. Returns what the
    /// maker received and what the fee collector received.
    pub fn process_collect(&mut self, actor: u64, mint: u64, now: i64) -> (r: Result<
        (u64, u64),
        ProtobookError,
    >)
        requires
            old(self).wf(),
        ensures
            final(self).wf(),
            r is Err ==> final(self).same_state(*old(self)),
            actor != old(self).order.authority ==> r == Err::<(u64, u64), ProtobookError>(
                ProtobookError::NotAuthorized,
            ),
            actor == old(self).order.authority && !old(self).order.is_expired(now) ==> r == Err::<
                (u64, u64),
                ProtobookError,
            >(ProtobookError::OrderNotExpired),
            actor == old(self).order.authority && old(self).order.is_expired(now) && old(
                self,
            ).order.is_collected ==> r == Err::<(u64, u64), ProtobookError>(
                ProtobookError::AlreadyCollected,
            ),
            actor == old(self).order.authority && old(self).order.is_expired(now) && !old(
                self,
            ).order.is_collected && mint != collect_mint(old(self).order) ==> r == Err::<
                (u64, u64),
                ProtobookError,
            >(ProtobookError::AssetMismatch),
            actor == old(self).order.authority && old(self).order.is_expired(now) && !old(
                self,
            ).order.is_collected && mint == collect_mint(old(self).order) && !collect_funded(
                *old(self),
            ) ==> r == Err::<(u64, u64), ProtobookError>(ProtobookError::InsufficientBalance),
            r is Ok <==> actor == old(self).order.authority && old(self).order.is_expired(now)
                && !old(self).order.is_collected && mint == collect_mint(old(self).order)
                && collect_funded(*old(self)),
            r matches Ok(p) ==> ({
                &&& final(self).order == (Order { is_collected: true, ..old(self).order })
                &&& final(self).receipts@ == old(self).receipts@
                &&& (if old(self).order.is_filled() {
                    &&& final(self).vault_a == old(self).vault_a
                    &&& final(self).vault_b == (Vault {
                        mint: old(self).vault_b.mint,
                        balance: (old(self).vault_b.balance - old(self).order.total_deposits) as u64,
                        withdrawn: (old(self).vault_b.withdrawn
                            + old(self).order.total_deposits) as u64,
                    })
                    &&& p.0 == old(self).order.total_deposits - old(self).order.fee
                    &&& p.1 == old(self).order.fee
                } else {
                    &&& final(self).vault_b == old(self).vault_b
                    &&& final(self).vault_a == (Vault {
                        mint: old(self).vault_a.mint,
                        balance: (old(self).vault_a.balance - old(self).order.amount_a) as u64,
                        withdrawn: (old(self).vault_a.withdrawn + old(self).order.amount_a) as u64,
                    })
                    &&& p.0 == old(self).order.amount_a
                    &&& p.1 == 0
                })
            }),
            final(self).order.total_deposits == old(self).order.total_deposits,
            final(self).order.total_receipts == old(self).order.total_receipts,
            final(self).order.total_redeemed == old(self).order.total_redeemed,
            final(self).order.expires_at == old(self).order.expires_at,
    {
        if let Err(e) = self.order.require_authority(actor) {
            return Err(e);
        }
        if let Err(e) = self.order.require_expired(now) {
            return Err(e);
        }
        if self.order.is_collected {
            return Err(ProtobookError::AlreadyCollected);
        }
        let is_filled = self.order.total_deposits == self.order.amount_b;
        if is_filled {
            // The maker's proceeds and the fee both leave vault B; they are
            // withdrawn together so that the operation cannot stop halfway.
            if let Err(e) = self.vault_b.require_asset_identity(mint) {
                return Err(e);
            }
            if let Err(e) = self.vault_b.release(self.order.total_deposits) {
                return Err(e);
            }
            self.order.is_collected = true;
            Ok((self.order.total_deposits - self.order.fee, self.order.fee))
        } else {
            if let Err(e) = self.vault_a.require_asset_identity(mint) {
                return Err(e);
            }
            if let Err(e) = self.vault_a.release(self.order.amount_a) {
                return Err(e);
            }
            self.order.is_collected = true;
            Ok((self.order.amount_a, 0))
        }
    }

    /// A taker's settlement on an expired order: consumes the taker's
    /// receipt, exactly once. On a filled order the taker receives the
    /// floor of a pro-rata share of the locked asset A out of vault A; on
    /// an unfilled order the taker's own deposit of asset B comes back out
    /// of vault B. `mint` must name the asset of the branch taken. Returns
    /// the payout.
    pub fn process_redeem(&mut self, actor: u64, mint: u64, now: i64) -> (r: Result<
        u64,
        ProtobookError,
    >)
        requires
            old(self).wf(),
        ensures
            final(self).wf(),
            r is Err ==> final(self).same_state(*old(self)),
            !old(self).order.is_expired(now) ==> r == Err::<u64, ProtobookError>(
                ProtobookError::OrderNotExpired,
            ),
            old(self).order.is_expired(now) && !has_receipt(old(self).receipts@, actor) ==> r
                == Err::<u64, ProtobookError>(ProtobookError::NotAuthorized),
            old(self).order.is_expired(now) && has_receipt(old(self).receipts@, actor)
                && redeem_target(*old(self), actor).is_redeemed ==> r == Err::<u64, ProtobookError>(
                ProtobookError::ReceiptAlreadyRedeemed,
            ),
            old(self).order.is_expired(now) && has_receipt(old(self).receipts@, actor)
                && !redeem_target(*old(self), actor).is_redeemed && mint != redeem_mint(
                old(self).order,
            ) ==> r == Err::<u64, ProtobookError>(ProtobookError::AssetMismatch),
            old(self).order.is_expired(now) && has_receipt(old(self).receipts@, actor)
                && !redeem_target(*old(self), actor).is_redeemed && mint == redeem_mint(
                old(self).order,
            ) && !redeem_funded(*old(self), redeem_target(*old(self), actor).deposit) ==> r
                == Err::<u64, ProtobookError>(ProtobookError::InsufficientBalance),
            r is Ok <==> redeem_allowed(*old(self), actor, mint, now),
            r matches Ok(pay) ==> pay == redeem_payout(
                old(self).order,
                redeem_target(*old(self), actor).deposit,
            ),
            r is Ok ==> redeem_applied(*old(self), *final(self), actor),
            final(self).order.total_redeemed >= old(self).order.total_redeemed,
            final(self).order.total_deposits == old(self).order.total_deposits,
            final(self).order.total_receipts == old(self).order.total_receipts,
            final(self).order.expires_at == old(self).order.expires_at,
    {
        if let Err(e) = self.order.require_expired(now) {
            return Err(e);
        }
        let i = match find_receipt(&self.receipts, actor) {
            Some(i) => i,
            None => {
                return Err(ProtobookError::NotAuthorized);
            },
        };
        let rec = self.receipts[i];
        if rec.is_redeemed {
            return Err(ProtobookError::ReceiptAlreadyRedeemed);
        }
        let is_filled = self.order.total_deposits == self.order.amount_b;
        let payout: u64;
        if is_filled {
            if let Err(e) = self.vault_a.require_asset_identity(mint) {
                return Err(e);
            }
            proof {
                lemma_deposit_le_sum(self.receipts@, i as int);
                lemma_prorata_le_amount(
                    self.order.amount_a,
                    rec.deposit,
                    self.order.total_deposits,
                );
                assert((self.order.amount_a as int) * (rec.deposit as int) <= u128::MAX as int)
                    by (nonlinear_arith)
                    requires
                        self.order.amount_a <= u64::MAX,
                        rec.deposit <= u64::MAX,
                ;
            }
            // A wide intermediate keeps the pro-rata product from
            // overflowing; the quotient itself never exceeds `amount_a`.
            let wide = (self.order.amount_a as u128) * (rec.deposit as u128);
            payout = (wide / (self.order.total_deposits as u128)) as u64;
            if let Err(e) = self.vault_a.release(payout) {
                return Err(e);
            }
        } else {
            if let Err(e) = self.vault_b.require_asset_identity(mint) {
                return Err(e);
            }
            payout = rec.deposit;
            if let Err(e) = self.vault_b.release(payout) {
                return Err(e);
            }
        }

        // Consume the receipt and count the redemption.
        let mut consumed = rec;
        consumed.is_redeemed = true;
        proof {
            lemma_sum_deposits_update(self.receipts@, i as int, consumed);
            lemma_count_redeemed_update(self.receipts@, i as int, consumed);
            lemma_count_redeemed_bounds(self.receipts@.update(i as int, consumed));
        }
        self.receipts[i] = consumed;
        self.order.total_redeemed = self.order.total_redeemed + 1;
        Ok(payout)
    }

    /// Teardown of a fully settled order: the maker must have collected and
    /// every deposit event must have been redeemed. Any rounding dust left
    /// in either vault is swept to the maker and both vaults end empty.
    /// Returns the swept amounts of asset A and asset B; the caller then
    /// discards the record.
    pub fn process_close(&mut self, actor: u64, now: i64) -> (r: Result<
        (u64, u64),
        ProtobookError,
    >)
        requires
            old(self).wf(),
        ensures
            final(self).wf(),
            r is Err ==> final(self).same_state(*old(self)),
            actor != old(self).order.authority ==> r == Err::<(u64, u64), ProtobookError>(
                ProtobookError::NotAuthorized,
            ),
            actor == old(self).order.authority && !old(self).order.is_expired(now) ==> r == Err::<
                (u64, u64),
                ProtobookError,
            >(ProtobookError::OrderNotExpired),
            actor == old(self).order.authority && old(self).order.is_expired(now) && (old(
                self,
            ).order.total_receipts != old(self).order.total_redeemed || !old(
                self,
            ).order.is_collected) ==> r == Err::<(u64, u64), ProtobookError>(
                ProtobookError::OrderNotSettled,
            ),
            r is Ok <==> actor == old(self).order.authority && old(self).order.is_expired(now)
                && old(self).order.total_receipts == old(self).order.total_redeemed && old(
                self,
            ).order.is_collected,
            r matches Ok(p) ==> ({
                &&& p.0 == old(self).vault_a.balance
                &&& p.1 == old(self).vault_b.balance
                &&& final(self).order == old(self).order
                &&& final(self).receipts@ == old(self).receipts@
                &&& final(self).vault_a == (Vault {
                    mint: old(self).vault_a.mint,
                    balance: 0u64,
                    withdrawn: old(self).order.amount_a,
                })
                &&& final(self).vault_b == (Vault {
                    mint: old(self).vault_b.mint,
                    balance: 0u64,
                    withdrawn: old(self).order.total_deposits,
                })
            }),
            final(self).order == old(self).order,
    {
        if let Err(e) = self.order.require_authority(actor) {
            return Err(e);
        }
        if let Err(e) = self.order.require_expired(now) {
            return Err(e);
        }
        if self.order.total_receipts != self.order.total_redeemed {
            return Err(ProtobookError::OrderNotSettled);
        }
        if !self.order.is_collected {
            return Err(ProtobookError::OrderNotSettled);
        }
        let dust_a = self.vault_a.sweep();
        let dust_b = self.vault_b.sweep();
        Ok((dust_a, dust_b))
    }
}

/// The floor of a pro-rata share never exceeds the whole: with a deposit
/// within the total, `amount_a * deposit / total` lies between zero and
/// `amount_a`.
pub proof fn lemma_prorata_le_amount(amount_a: u64, deposit: u64, total: u64)
    requires
        deposit <= total,
        total > 0,
    ensures
        0 <= prorata(amount_a, deposit, total) <= amount_a,
{
    let a = amount_a as int;
    let d = deposit as int;
    let t = total as int;
    lemma_mul_inequality(d, t, a);
    lemma_div_is_ordered(a * d, a * t, t);
    lemma_div_multiples_vanish(a, t);
    lemma_div_multiples_vanish(0, t);
    lemma_div_is_ordered(0, a * d, t);
}

/// The asset a redeem call must name: A when the order was filled (the
/// pro-rata share), B when it was not (the refunded deposit).
pub open spec fn redeem_mint(o: Order) -> u64 {
    if o.is_filled() {
        o.mint_a
    } else {
        o.mint_b
    }
}

/// The vault of the redeem branch holds enough to pay the taker out.
pub open spec fn redeem_funded(e: Escrow, deposit: u64) -> bool {
    if e.order.is_filled() {
        redeem_payout(e.order, deposit) <= e.vault_a.balance
    } else {
        deposit <= e.vault_b.balance
    }
}

/// The receipt a redeem call by `actor` settles. Meaningful when the actor
/// holds one.
pub open spec fn redeem_target(e: Escrow, actor: u64) -> Receipt {
    e.receipts@[receipt_index(e.receipts@, actor)]
}

/// All guards of a redeem call pass: the order is expired, the actor holds
/// an unconsumed receipt, the named asset matches the branch, and the
/// branch's vault covers the payout.
pub open spec fn redeem_allowed(e: Escrow, actor: u64, mint: u64, now: i64) -> bool {
    &&& e.order.is_expired(now)
    &&& has_receipt(e.receipts@, actor)
    &&& !redeem_target(e, actor).is_redeemed
    &&& mint == redeem_mint(e.order)
    &&& redeem_funded(e, redeem_target(e, actor).deposit)
}

/// How a successful redeem call by `actor` turns `pre` into `post`: the
/// actor's receipt is consumed, the redemption is counted, the payout
/// leaves the branch's vault, and nothing else moves.
pub open spec fn redeem_applied(pre: Escrow, post: Escrow, actor: u64) -> bool {
    let j = receipt_index(pre.receipts@, actor);
    let prev = pre.receipts@[j];
    let pay = redeem_payout(pre.order, prev.deposit);
    &&& post.receipts@ == pre.receipts@.update(j, (Receipt { is_redeemed: true, ..prev }))
    &&& post.order == (Order {
        total_redeemed: (pre.order.total_redeemed + 1) as u64,
        ..pre.order
    })
    &&& (if pre.order.is_filled() {
        post.vault_b == pre.vault_b && post.vault_a == (Vault {
            mint: pre.vault_a.mint,
            balance: (pre.vault_a.balance - pay) as u64,
            withdrawn: (pre.vault_a.withdrawn + pay) as u64,
        })
    } else {
        post.vault_a == pre.vault_a && post.vault_b == (Vault {
            mint: pre.vault_b.mint,
            balance: (pre.vault_b.balance - pay) as u64,
            withdrawn: (pre.vault_b.withdrawn + pay) as u64,
        })
    })
}

/// The asset a collect call must name: B when the order was filled (the
/// proceeds), A when it was not (the maker's returned offer).
pub open spec fn collect_mint(o: Order) -> u64 {
    if o.is_filled() {
        o.mint_b
    } else {
        o.mint_a
    }
}

/// The vault of the collect branch holds enough to pay the maker and the
/// fee collector.
pub open spec fn collect_funded(e: Escrow) -> bool {
    if e.order.is_filled() {
        e.vault_b.balance >= e.order.total_deposits
    } else {
        e.vault_a.balance >= e.order.amount_a
    }
}

} // verus!
