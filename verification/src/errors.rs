use vstd::prelude::*;

verus! {

/// The flat enumeration of everything that can go wrong in the ledger.
///
/// Every arithmetic or balance-invariant violation aborts the whole operation
/// with one of these; no handler recovers locally and no handler leaves a
/// partial state change behind.
#[derive(Clone, Copy, Debug, PartialEq, Eq, Structural)]
pub enum StakeError {
    /// An amount was zero where a positive amount is required.
    InvalidAmount,
    /// An unstake asked for more than the account has staked.
    InsufficientStake,
    /// A transfer's source balance is smaller than the amount moved.
    InsufficientFunds,
    /// The caller's identity does not match the account's owner.
    Unauthorized,
    /// A checked addition or multiplication would have wrapped.
    Overflow,
    /// A checked subtraction would have gone negative.
    Underflow,
    /// The supplied clock reading lies before the last settlement time.
    TimeRegression,
    /// A claim found nothing to pay out.
    ZeroAmount,
    /// The asset identity does not match the configured one.
    InvalidAsset,
}

} // verus!
