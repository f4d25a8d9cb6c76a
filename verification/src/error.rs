//! Why a split is refused.

use vstd::prelude::*;

verus! {

/// The reasons for which a split is refused. Every failure is final: nothing
/// is retried, and no account is changed.
#[derive(Clone, Copy, Debug, PartialEq, Eq)]
pub enum SplitError {
    /// Fewer than two accounts were handed over.
    NotEnoughAccountKeys,
    /// Source and destination are one and the same account.
    AccountBorrowFailed,
    /// The destination has the wrong size or is occupied, or the source holds
    /// no state that can be split.
    InvalidAccountData,
    /// The amount exceeds the source's balance, or an account would be left
    /// with less than its rent-exempt reserve.
    InsufficientFunds,
    /// A delegation would fall below the minimum delegation.
    InsufficientDelegation,
    /// The authority that must sign did not.
    MissingRequiredSignature,
    /// More stake would leave the source than it has delegated.
    InvalidDelegationAmount,
    /// The destination's balance would exceed what a balance can hold.
    ArithmeticOverflow,
}

} // verus!
