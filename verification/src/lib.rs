//! A two-party, partially fillable escrow exchange.
//!
//! A maker locks a quantity of asset A and offers it for a fixed quantity of
//! asset B. Independent takers contribute portions of B until the order is
//! fully subscribed or its deadline passes; proceeds are then distributed
//! pro-rata. The crate verifies the order lifecycle and the escrow
//! accounting: value locked in the vaults is conserved, receipt totals match
//! order counters, and every operation either fully applies or fully fails.

pub mod error;
pub mod escrow;
pub mod laws;
pub mod order;
pub mod receipt;
pub mod vault;
