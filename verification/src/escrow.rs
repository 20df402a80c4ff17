//! The escrow authority and the value-transfer service it signs for.
//!
//! Staked value is custodied by a vault that only the program — never a
//! depositor — may release.  At initialization the program mints one
//! release capability for that vault, completed by a small "bump"
//! discriminant that disambiguates the derivation per deployment; a handler
//! that moves value out of the vault, or mints reward units, must hold that
//! capability.  Balances are plain 64-bit quantities here, and every
//! movement is all-or-nothing: a transfer that cannot complete leaves both
//! balances untouched.

use vstd::prelude::*;

use crate::errors::StakeError;

verus! {

/// The program-exclusive release capability for one escrow vault.
///
/// It holds no private key: the identity it stands for is reproducible from
/// public inputs plus the stored bump discriminant, so only the issuing
/// program can construct an authorization with it.
#[derive(Clone, Copy, Debug, PartialEq, Eq, Structural)]
pub struct EscrowAuthority {
    /// The discriminant completing the deterministic derivation.
    pub bump: u8,
}

/// Moves `amount` from one balance to another on a depositor's own
/// signature, used when the source account is caller-owned.
pub fn transfer(from: &mut u64, to: &mut u64, amount: u64) -> (r: Result<(), StakeError>)
    ensures
        r is Ok <==> amount <= *old(from) && *old(to) + amount <= u64::MAX,
        r is Ok ==> *final(from) == *old(from) - amount && *final(to) == *old(to) + amount,
        r is Err ==> *final(from) == *old(from) && *final(to) == *old(to),
        *old(from) < amount ==> r == Err::<(), StakeError>(StakeError::InsufficientFunds),
        amount <= *old(from) && *old(to) + amount > u64::MAX ==> r == Err::<(), StakeError>(
            StakeError::Overflow,
        ),
        r is Ok ==> *final(from) + *final(to) == *old(from) + *old(to),
{
    if *from < amount {
        return Err(StakeError::InsufficientFunds);
    }
    let headroom: u64 = u64::MAX - *to;
    if headroom < amount {
        return Err(StakeError::Overflow);
    }
    *from = *from - amount;
    *to = *to + amount;
    Ok(())
}

/// Moves `amount` out of a program-owned balance under the escrow
/// authority's delegated signature, used exactly when value leaves the
/// vault.
pub fn transfer_with_authority(
    authority: &EscrowAuthority,
    from: &mut u64,
    to: &mut u64,
    amount: u64,
) -> (r: Result<(), StakeError>)
    ensures
        r is Ok <==> amount <= *old(from) && *old(to) + amount <= u64::MAX,
        r is Ok ==> *final(from) == *old(from) - amount && *final(to) == *old(to) + amount,
        r is Err ==> *final(from) == *old(from) && *final(to) == *old(to),
        *old(from) < amount ==> r == Err::<(), StakeError>(StakeError::InsufficientFunds),
        amount <= *old(from) && *old(to) + amount > u64::MAX ==> r == Err::<(), StakeError>(
            StakeError::Overflow,
        ),
        r is Ok ==> *final(from) + *final(to) == *old(from) + *old(to),
{
    let _ = authority;
    transfer(from, to, amount)
}

/// Creates `amount` new reward units directly into `destination`; requires
/// the same delegated authority capability as vault releases.
pub fn mint(authority: &EscrowAuthority, destination: &mut u64, amount: u64) -> (r: Result<
    (),
    StakeError,
>)
    ensures
        r is Ok <==> *old(destination) + amount <= u64::MAX,
        r is Ok ==> *final(destination) == *old(destination) + amount,
        r is Err ==> *final(destination) == *old(destination) && r == Err::<(), StakeError>(
            StakeError::Overflow,
        ),
{
    let _ = authority;
    let headroom: u64 = u64::MAX - *destination;
    if headroom < amount {
        return Err(StakeError::Overflow);
    }
    *destination = *destination + amount;
    Ok(())
}

} // verus!
