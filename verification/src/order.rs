//! The order record: one maker's offer and its fill/settlement state.

use vstd::prelude::*;

use crate::error::ProtobookError;

verus! {

/// An order is a public, timebound offer: the maker locks `amount_a` of
/// asset A in escrow and requests `amount_b` of asset B in exchange.
///
/// Identities (the maker, the fee collector and the two mints) are plain
/// numeric handles; the dispatch layer that authenticates callers and
/// resolves storage addresses stands outside this crate.
#[derive(Clone, Copy, Debug, PartialEq, Eq, Structural)]
pub struct Order {
    /// The maker of the order.
    pub authority: u64,
    /// The amount of asset A offered by the maker and locked in escrow.
    pub amount_a: u64,
    /// The amount of asset B requested by the maker.
    pub amount_b: u64,
    /// The time at which the order expires. It only ever decreases: a
    /// cancellation or a full subscription pulls it down to the current time.
    pub expires_at: i64,
    /// An optional fee taken from the B proceeds when a filled order is
    /// collected; at most `amount_b`.
    pub fee: u64,
    /// The recipient of the fee.
    pub fee_collector: u64,
    /// A unique identifier for the order, namespaced by the authority.
    pub id: u64,
    /// The mint of asset A.
    pub mint_a: u64,
    /// The mint of asset B.
    pub mint_b: u64,
    /// The running sum of B contributed by all takers; at most `amount_b`.
    pub total_deposits: u64,
    /// The number of deposit events: incremented once per Fill call,
    /// repeat fills by the same taker included.
    pub total_receipts: u64,
    /// The number of redemptions performed; at most `total_receipts`.
    pub total_redeemed: u64,
    /// One-shot flag: the maker has withdrawn the settlement proceeds.
    pub is_collected: bool,
}

impl Order {
    /// Structural invariant of an order record, established at open and
    /// preserved by every operation.
    ///
    /// `total_receipts <= total_deposits` holds because every counted fill
    /// deposits at least one unit; it bounds the receipt counter away from
    /// overflow.
    pub open spec fn wf(self) -> bool {
        &&& self.amount_a > 0
        &&& self.amount_b > 0
        &&& self.fee <= self.amount_b
        &&& self.mint_a != self.mint_b
        &&& self.total_deposits <= self.amount_b
        &&& self.total_redeemed <= self.total_receipts
        &&& self.total_receipts <= self.total_deposits
    }

    /// A fully subscribed order. Deposits never pass `amount_b`, so this
    /// predicate is stable once true; it is derived, never cached.
    pub open spec fn is_filled(self) -> bool {
        self.total_deposits == self.amount_b
    }

    /// The order still accepts deposits at time `now`.
    pub open spec fn is_open(self, now: i64) -> bool {
        now < self.expires_at
    }

    /// The order's deadline has passed at time `now`; settlement operations
    /// become available.
    pub open spec fn is_expired(self, now: i64) -> bool {
        now >= self.expires_at
    }

    /// Guard: the caller must be the maker.
    pub fn require_authority(&self, actor: u64) -> (r: Result<(), ProtobookError>)
        ensures
            r is Ok <==> self.authority == actor,
            r is Err ==> r == Err::<(), ProtobookError>(ProtobookError::NotAuthorized),
    {
        if self.authority == actor {
            Ok(())
        } else {
            Err(ProtobookError::NotAuthorized)
        }
    }

    /// Guard: the order must still be open at time `now`.
    pub fn require_open(&self, now: i64) -> (r: Result<(), ProtobookError>)
        ensures
            r is Ok <==> self.is_open(now),
            r is Err ==> r == Err::<(), ProtobookError>(ProtobookError::OrderNotOpen),
    {
        if now < self.expires_at {
            Ok(())
        } else {
            Err(ProtobookError::OrderNotOpen)
        }
    }

    /// Guard: the order must be expired at time `now`.
    pub fn require_expired(&self, now: i64) -> (r: Result<(), ProtobookError>)
        ensures
            r is Ok <==> self.is_expired(now),
            r is Err ==> r == Err::<(), ProtobookError>(ProtobookError::OrderNotExpired),
    {
        if now >= self.expires_at {
            Ok(())
        } else {
            Err(ProtobookError::OrderNotExpired)
        }
    }
}

} // verus!
