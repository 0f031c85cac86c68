//! An escrow holding account, exclusively controlled by the lifecycle
//! engine on behalf of one order.
//!
//! Beside its balance a vault keeps the running sum of everything ever
//! withdrawn from it, so that conservation can be stated as an invariant:
//! what a vault holds plus what has left it equals what was put in.

use vstd::prelude::*;

use crate::error::ProtobookError;

verus! {

/// One escrow holding account for a single asset.
#[derive(Clone, Copy, Debug, PartialEq, Eq, Structural)]
pub struct Vault {
    /// The asset identity this vault holds.
    pub mint: u64,
    /// Units of the asset currently held.
    pub balance: u64,
    /// Units of the asset withdrawn over the vault's lifetime.
    pub withdrawn: u64,
}

impl Vault {
    /// Everything ever deposited: what is still held plus what has left.
    pub open spec fn total_in(self) -> int {
        self.balance + self.withdrawn
    }

    /// A fresh, empty vault for the given asset.
    pub fn new(mint: u64) -> (v: Vault)
        ensures
            v == (Vault { mint, balance: 0, withdrawn: 0 }),
    {
        Vault { mint, balance: 0, withdrawn: 0 }
    }

    /// Guard: the vault must hold the expected asset.
    pub fn require_asset_identity(&self, expected_mint: u64) -> (r: Result<(), ProtobookError>)
        ensures
            r is Ok <==> self.mint == expected_mint,
            r is Err ==> r == Err::<(), ProtobookError>(ProtobookError::AssetMismatch),
    {
        if self.mint == expected_mint {
            Ok(())
        } else {
            Err(ProtobookError::AssetMismatch)
        }
    }

    /// Locks `amount` units into escrow. The caller shows the new balance
    /// fits; the engine gets that bound from the order's caps.
    pub fn lock(&mut self, amount: u64)
        requires
            old(self).balance + amount <= u64::MAX,
        ensures
            *final(self) == (Vault {
                mint: old(self).mint,
                balance: (old(self).balance + amount) as u64,
                withdrawn: old(self).withdrawn,
            }),
    {
        self.balance = self.balance + amount;
    }

    /// Releases `amount` units from escrow to a destination outside the
    /// vault. Fails atomically, leaving the vault unchanged, when the
    /// balance is insufficient.
    pub fn release(&mut self, amount: u64) -> (r: Result<(), ProtobookError>)
        requires
            old(self).total_in() <= u64::MAX,
        ensures
            r is Ok <==> amount <= old(self).balance,
            r is Err ==> r == Err::<(), ProtobookError>(ProtobookError::InsufficientBalance)
                && *final(self) == *old(self),
            r is Ok ==> *final(self) == (Vault {
                mint: old(self).mint,
                balance: (old(self).balance - amount) as u64,
                withdrawn: (old(self).withdrawn + amount) as u64,
            }),
    {
        if amount > self.balance {
            return Err(ProtobookError::InsufficientBalance);
        }
        self.balance = self.balance - amount;
        self.withdrawn = self.withdrawn + amount;
        Ok(())
    }

    /// Sweeps the whole remaining balance out of the vault and reports how
    /// much left. Used at teardown to recover rounding dust.
    pub fn sweep(&mut self) -> (amount: u64)
        requires
            old(self).total_in() <= u64::MAX,
        ensures
            amount == old(self).balance,
            *final(self) == (Vault {
                mint: old(self).mint,
                balance: 0u64,
                withdrawn: (old(self).withdrawn + old(self).balance) as u64,
            }),
    {
        let amount = self.balance;
        self.withdrawn = self.withdrawn + amount;
        self.balance = 0;
        amount
    }
}

} // verus!
