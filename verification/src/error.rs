//! Typed failures of the lifecycle engine.

use vstd::prelude::*;

verus! {

/// Every operation of the engine fails with one of these kinds, and each
/// contract states exactly on which inputs each kind is returned. A failure
/// never mutates entity state.
#[derive(Clone, Copy, Debug, PartialEq, Eq, Structural)]
pub enum ProtobookError {
    /// Malformed amounts, a deadline not in the future, or identical mints.
    InvalidArgument,
    /// The caller is not the authority the operation requires.
    NotAuthorized,
    /// The order's deadline has already passed.
    OrderNotOpen,
    /// The order's deadline has not passed yet.
    OrderNotExpired,
    /// A deposit was attempted while no room remains.
    OrderFull,
    /// The maker has already collected the settlement proceeds.
    AlreadyCollected,
    /// The receipt was already consumed by an earlier redemption.
    ReceiptAlreadyRedeemed,
    /// Close was attempted before every receipt was redeemed and the maker
    /// collected.
    OrderNotSettled,
    /// The supplied asset identity does not match the required mint.
    AssetMismatch,
    /// A transfer asked for more than the source balance holds.
    InsufficientBalance,
}

} // verus!
