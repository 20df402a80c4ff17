//! The coin-variant staking ledger: the "points" accrual model.
//!
//! One stake account per depositor keeps the staked amount, a running
//! accumulator of unclaimed reward points, and the wall-clock time of the
//! last settlement.  The account itself doubles as the value-holding escrow
//! for its own deposit, so the handlers move a lamport balance alongside the
//! bookkeeping.  Every ledger-mutating operation settles pending rewards
//! against the supplied clock reading before it changes the staked amount,
//! and performs its whole effect atomically: a failed operation changes
//! nothing.

use vstd::arithmetic::mul::lemma_mul_upper_bound;
use vstd::prelude::*;

use crate::errors::StakeError;
use crate::escrow;
use crate::escrow::EscrowAuthority;
use crate::math;

verus! {

/// Reward points accrued per staked sol per elapsed day, before scaling.
pub const POINTS_PER_DAY: u64 = 1_000_000;

/// Lamports per sol: the staked amount is denominated in lamports.
pub const LAMPORTS_PER_SOL: u64 = 1_000_000_000;

/// Seconds per day: the elapsed time is denominated in seconds.
pub const SECONDS_PER_DAY: u64 = 86_400;

/// The implicit fixed-point scale of the points accumulator; a claim pays
/// out whole points.
pub const POINT_SCALE: u64 = 1_000_000;

/// One depositor's stake account.
#[derive(Clone, Copy, Debug, PartialEq, Eq, Structural)]
pub struct StakeAccount {
    /// The depositor's identity; mutation is only permitted to this caller.
    pub owner: u64,
    /// The amount currently held in escrow on this account's behalf.
    pub staked_amount: u64,
    /// Cumulative reward points earned and not yet claimed.
    pub total_points: u64,
    /// The wall-clock time at which rewards were last folded in; it never
    /// decreases across the account's lifetime.
    pub last_update_time: i64,
    /// The discriminant completing this account's deterministic derivation.
    pub bump: u8,
}

/// The reward formula: points earned by `staked_amount` lamports over
/// `elapsed` seconds, multiplied out before any division.
pub open spec fn spec_points_earned(staked_amount: int, elapsed: int) -> int {
    staked_amount * elapsed * POINTS_PER_DAY / (LAMPORTS_PER_SOL as int) / (SECONDS_PER_DAY as int)
}

/// When the reward formula stays within the 128-bit intermediate and the
/// 64-bit result.
pub open spec fn spec_calc_ok(staked_amount: int, elapsed: int) -> bool {
    &&& staked_amount * elapsed * POINTS_PER_DAY <= u128::MAX
    &&& spec_points_earned(staked_amount, elapsed) <= u64::MAX
}

/// Seconds between the supplied clock reading and the last settlement.
pub open spec fn spec_elapsed(account: StakeAccount, now: i64) -> int {
    now - account.last_update_time
}

/// Whether a settlement at `now` accrues any points: only positive elapsed
/// time over a positive stake does.
pub open spec fn spec_accrues(account: StakeAccount, now: i64) -> bool {
    now > account.last_update_time && account.staked_amount > 0
}

/// The points a settlement at `now` folds into the accumulator.
pub open spec fn spec_new_points(account: StakeAccount, now: i64) -> int {
    if spec_accrues(account, now) {
        spec_points_earned(account.staked_amount as int, spec_elapsed(account, now))
    } else {
        0
    }
}

/// When a settlement at `now` succeeds: the clock must not have run
/// backward and the accrual must fit its arithmetic.
pub open spec fn spec_settle_ok(account: StakeAccount, now: i64) -> bool {
    &&& now >= account.last_update_time
    &&& spec_accrues(account, now) ==> spec_calc_ok(
        account.staked_amount as int,
        spec_elapsed(account, now),
    )
    &&& account.total_points + spec_new_points(account, now) <= u64::MAX
}

/// The account after a successful settlement at `now`: accrued points are
/// folded in and the time mark advances unconditionally, even when nothing
/// accrued, so that a dormant account can never later collect a burst of
/// rewards for time that has already passed.
pub open spec fn spec_settle(account: StakeAccount, now: i64) -> StakeAccount {
    StakeAccount {
        total_points: (account.total_points + spec_new_points(account, now)) as u64,
        last_update_time: now,
        ..account
    }
}

/// The error a failed settlement at `now` reports.
pub open spec fn spec_settle_err(account: StakeAccount, now: i64) -> StakeError {
    if now < account.last_update_time {
        StakeError::TimeRegression
    } else {
        StakeError::Overflow
    }
}

/// Points earned by `staked_amount` lamports over `time_elapsed_in_seconds`
/// seconds: the product is widened to 128 bits across both multiplications,
/// divided down, and narrowed back only at the end.
pub fn calculate_points_earned(staked_amount: u64, time_elapsed_in_seconds: u64) -> (r: Result<
    u64,
    StakeError,
>)
    ensures
        r is Ok <==> spec_calc_ok(staked_amount as int, time_elapsed_in_seconds as int),
        r is Ok ==> r->Ok_0 == spec_points_earned(
            staked_amount as int,
            time_elapsed_in_seconds as int,
        ),
        r is Err ==> r->Err_0 == StakeError::Overflow,
{
    let wide_amount: u128 = staked_amount as u128;
    let wide_elapsed: u128 = time_elapsed_in_seconds as u128;
    proof {
        lemma_mul_upper_bound(
            wide_amount as int,
            u64::MAX as int,
            wide_elapsed as int,
            u64::MAX as int,
        );
    }
    let product: u128 = match math::checked_mul_u128(wide_amount, wide_elapsed) {
        Ok(p) => p,
        Err(e) => return Err(e),
    };
    let scaled: u128 = match math::checked_mul_u128(product, POINTS_PER_DAY as u128) {
        Ok(p) => p,
        Err(e) => return Err(e),
    };
    let per_sol: u128 = match math::checked_div_u128(scaled, LAMPORTS_PER_SOL as u128) {
        Ok(q) => q,
        Err(e) => return Err(e),
    };
    let points: u128 = match math::checked_div_u128(per_sol, SECONDS_PER_DAY as u128) {
        Ok(q) => q,
        Err(e) => return Err(e),
    };
    math::narrow_u128_to_u64(points)
}

/// Settles all pending accrual into the account at the supplied clock
/// reading: the accrual engine behind every ledger-mutating operation.
///
/// A clock reading before the last settlement never mutates state and
/// always fails with a time regression; settling again at the same reading
/// is a no-op.  The time mark advances on every success, so it is
/// non-decreasing across the account's lifetime.
pub fn update_points(pda_account: &mut StakeAccount, current_time: i64) -> (r: Result<
    (),
    StakeError,
>)
    ensures
        r is Ok <==> spec_settle_ok(*old(pda_account), current_time),
        r is Ok ==> *final(pda_account) == spec_settle(*old(pda_account), current_time),
        r is Err ==> *final(pda_account) == *old(pda_account),
        r is Err ==> r == Err::<(), StakeError>(spec_settle_err(*old(pda_account), current_time)),
        current_time < old(pda_account).last_update_time ==> r == Err::<(), StakeError>(
            StakeError::TimeRegression,
        ),
        current_time == old(pda_account).last_update_time ==> r is Ok && *final(pda_account)
            == *old(pda_account),
        final(pda_account).last_update_time >= old(pda_account).last_update_time,
        final(pda_account).staked_amount == old(pda_account).staked_amount,
        final(pda_account).owner == old(pda_account).owner,
        final(pda_account).bump == old(pda_account).bump,
{
    let time_elapsed: u64 = match math::elapsed_seconds(current_time, pda_account.last_update_time) {
        Ok(e) => e,
        Err(e) => return Err(e),
    };
    if time_elapsed > 0 && pda_account.staked_amount > 0 {
        let new_points: u64 = match calculate_points_earned(
            pda_account.staked_amount,
            time_elapsed,
        ) {
            Ok(p) => p,
            Err(e) => return Err(e),
        };
        let new_total: u64 = match math::checked_add_u64(pda_account.total_points, new_points) {
            Ok(t) => t,
            Err(e) => return Err(e),
        };
        pda_account.total_points = new_total;
    }
    pda_account.last_update_time = current_time;
    Ok(())
}

/// Settlement is idempotent: a settled account is settleable again at the
/// same clock reading, and settling it changes nothing.
pub proof fn lemma_settle_idempotent(account: StakeAccount, now: i64)
    requires
        spec_settle_ok(account, now),
    ensures
        spec_settle_ok(spec_settle(account, now), now),
        spec_settle(spec_settle(account, now), now) == spec_settle(account, now),
{
}

/// Creates a depositor's stake account in its dormant state: nothing
/// staked, nothing accrued, the time mark at the supplied clock reading.
pub fn initialize_pda(owner: u64, bump: u8, now: i64) -> (pda_account: StakeAccount)
    ensures
        pda_account == (StakeAccount {
            owner,
            staked_amount: 0,
            total_points: 0,
            last_update_time: now,
            bump,
        }),
{
    StakeAccount { owner, staked_amount: 0, total_points: 0, last_update_time: now, bump }
}

/// When a stake of `amount` lamports at `now` succeeds.
pub open spec fn spec_stake_ok(
    account: StakeAccount,
    pda_lamports: u64,
    signer_lamports: u64,
    signer: u64,
    amount: u64,
    now: i64,
) -> bool {
    &&& signer == account.owner
    &&& amount > 0
    &&& spec_settle_ok(account, now)
    &&& amount <= signer_lamports
    &&& pda_lamports + amount <= u64::MAX
    &&& account.staked_amount + amount <= u64::MAX
}

/// The error a failed stake reports, in the order the checks run.
pub open spec fn spec_stake_err(
    account: StakeAccount,
    pda_lamports: u64,
    signer_lamports: u64,
    signer: u64,
    amount: u64,
    now: i64,
) -> StakeError {
    if signer != account.owner {
        StakeError::Unauthorized
    } else if amount == 0 {
        StakeError::InvalidAmount
    } else if !spec_settle_ok(account, now) {
        spec_settle_err(account, now)
    } else if signer_lamports < amount {
        StakeError::InsufficientFunds
    } else if pda_lamports + amount > u64::MAX {
        StakeError::Overflow
    } else {
        StakeError::Overflow
    }
}

/// Stakes `amount` lamports: settles pending rewards first — so the reward
/// reflects only the pre-existing stake — then moves the lamports from the
/// depositor into the account and raises the staked amount by exactly the
/// amount moved.
pub fn stake(
    pda_account: &mut StakeAccount,
    pda_lamports: &mut u64,
    signer_lamports: &mut u64,
    signer: u64,
    amount: u64,
    now: i64,
) -> (r: Result<(), StakeError>)
    ensures
        r is Ok <==> spec_stake_ok(
            *old(pda_account),
            *old(pda_lamports),
            *old(signer_lamports),
            signer,
            amount,
            now,
        ),
        r is Ok ==> *final(pda_account) == (StakeAccount {
            staked_amount: (old(pda_account).staked_amount + amount) as u64,
            ..spec_settle(*old(pda_account), now)
        }),
        r is Ok ==> *final(pda_lamports) == *old(pda_lamports) + amount,
        r is Ok ==> *final(signer_lamports) == *old(signer_lamports) - amount,
        r is Err ==> *final(pda_account) == *old(pda_account) && *final(pda_lamports) == *old(pda_lamports) && *final(signer_lamports) == *old(signer_lamports),
        r is Err ==> r == Err::<(), StakeError>(
            spec_stake_err(
                *old(pda_account),
                *old(pda_lamports),
                *old(signer_lamports),
                signer,
                amount,
                now,
            ),
        ),
        final(pda_account).last_update_time >= old(pda_account).last_update_time,
        r is Ok ==> final(pda_account).staked_amount - old(pda_account).staked_amount == *final(pda_lamports) - *old(pda_lamports),
{
    if signer != pda_account.owner {
        return Err(StakeError::Unauthorized);
    }
    if amount == 0 {
        return Err(StakeError::InvalidAmount);
    }
    let mut account: StakeAccount = *pda_account;
    match update_points(&mut account, now) {
        Ok(()) => {},
        Err(e) => return Err(e),
    }
    let mut from_balance: u64 = *signer_lamports;
    let mut to_balance: u64 = *pda_lamports;
    match escrow::transfer(&mut from_balance, &mut to_balance, amount) {
        Ok(()) => {},
        Err(e) => return Err(e),
    }
    let new_staked: u64 = match math::checked_add_u64(account.staked_amount, amount) {
        Ok(v) => v,
        Err(e) => return Err(e),
    };
    account.staked_amount = new_staked;
    *pda_account = account;
    *signer_lamports = from_balance;
    *pda_lamports = to_balance;
    Ok(())
}

/// When an unstake of `amount` lamports at `now` succeeds.
pub open spec fn spec_unstake_ok(
    account: StakeAccount,
    pda_lamports: u64,
    signer_lamports: u64,
    signer: u64,
    amount: u64,
    now: i64,
) -> bool {
    &&& signer == account.owner
    &&& amount > 0
    &&& amount <= account.staked_amount
    &&& spec_settle_ok(account, now)
    &&& amount <= pda_lamports
    &&& signer_lamports + amount <= u64::MAX
}

/// The error a failed unstake reports, in the order the checks run.
pub open spec fn spec_unstake_err(
    account: StakeAccount,
    pda_lamports: u64,
    signer_lamports: u64,
    signer: u64,
    amount: u64,
    now: i64,
) -> StakeError {
    if signer != account.owner {
        StakeError::Unauthorized
    } else if amount == 0 {
        StakeError::InvalidAmount
    } else if amount > account.staked_amount {
        StakeError::InsufficientStake
    } else if !spec_settle_ok(account, now) {
        spec_settle_err(account, now)
    } else if pda_lamports < amount {
        StakeError::InsufficientFunds
    } else {
        StakeError::Overflow
    }
}

/// Unstakes `amount` lamports, a partial withdrawal: settles first, then
/// releases exactly `amount` from the account's escrow back to the
/// depositor under the escrow authority's delegated signature, and lowers
/// the staked amount by the same `amount`.  Asking for more than is staked
/// fails with an insufficient stake and changes nothing.
pub fn unstake(
    pda_account: &mut StakeAccount,
    pda_lamports: &mut u64,
    signer_lamports: &mut u64,
    signer: u64,
    amount: u64,
    now: i64,
) -> (r: Result<(), StakeError>)
    ensures
        r is Ok <==> spec_unstake_ok(
            *old(pda_account),
            *old(pda_lamports),
            *old(signer_lamports),
            signer,
            amount,
            now,
        ),
        r is Ok ==> *final(pda_account) == (StakeAccount {
            staked_amount: (old(pda_account).staked_amount - amount) as u64,
            ..spec_settle(*old(pda_account), now)
        }),
        r is Ok ==> *final(pda_lamports) == *old(pda_lamports) - amount,
        r is Ok ==> *final(signer_lamports) == *old(signer_lamports) + amount,
        r is Err ==> *final(pda_account) == *old(pda_account) && *final(pda_lamports) == *old(pda_lamports) && *final(signer_lamports) == *old(signer_lamports),
        r is Err ==> r == Err::<(), StakeError>(
            spec_unstake_err(
                *old(pda_account),
                *old(pda_lamports),
                *old(signer_lamports),
                signer,
                amount,
                now,
            ),
        ),
        signer == old(pda_account).owner && amount > 0 && amount > old(pda_account).staked_amount ==> r == Err::<(), StakeError>(StakeError::InsufficientStake),
        final(pda_account).last_update_time >= old(pda_account).last_update_time,
        r is Ok ==> old(pda_account).staked_amount - final(pda_account).staked_amount == *old(pda_lamports) - *final(pda_lamports),
{
    if signer != pda_account.owner {
        return Err(StakeError::Unauthorized);
    }
    if amount == 0 {
        return Err(StakeError::InvalidAmount);
    }
    if amount > pda_account.staked_amount {
        return Err(StakeError::InsufficientStake);
    }
    let mut account: StakeAccount = *pda_account;
    match update_points(&mut account, now) {
        Ok(()) => {},
        Err(e) => return Err(e),
    }
    let authority = EscrowAuthority { bump: account.bump };
    let mut from_balance: u64 = *pda_lamports;
    let mut to_balance: u64 = *signer_lamports;
    match escrow::transfer_with_authority(&authority, &mut from_balance, &mut to_balance, amount) {
        Ok(()) => {},
        Err(e) => return Err(e),
    }
    let new_staked: u64 = match math::checked_sub_u64(account.staked_amount, amount) {
        Ok(v) => v,
        Err(e) => return Err(e),
    };
    account.staked_amount = new_staked;
    *pda_account = account;
    *pda_lamports = from_balance;
    *signer_lamports = to_balance;
    Ok(())
}

/// When a claim at `now` succeeds: the coin variant's claim always succeeds
/// once ownership holds and the settlement fits its arithmetic.
pub open spec fn spec_claim_ok(account: StakeAccount, signer: u64, now: i64) -> bool {
    signer == account.owner && spec_settle_ok(account, now)
}

/// The error a failed claim or query reports.
pub open spec fn spec_claim_err(account: StakeAccount, signer: u64, now: i64) -> StakeError {
    if signer != account.owner {
        StakeError::Unauthorized
    } else {
        spec_settle_err(account, now)
    }
}

/// Claims the accrued points: settles, reports the claimable whole points
/// at the fixed-point scale, and resets the accumulator to zero.
pub fn claim_points(pda_account: &mut StakeAccount, signer: u64, now: i64) -> (r: Result<
    u64,
    StakeError,
>)
    ensures
        r is Ok <==> spec_claim_ok(*old(pda_account), signer, now),
        r is Ok ==> r->Ok_0 == spec_settle(*old(pda_account), now).total_points / POINT_SCALE,
        r is Ok ==> *final(pda_account) == (StakeAccount {
            total_points: 0,
            last_update_time: now,
            ..*old(pda_account)
        }),
        r is Err ==> *final(pda_account) == *old(pda_account) && r == Err::<u64, StakeError>(
            spec_claim_err(*old(pda_account), signer, now),
        ),
        final(pda_account).last_update_time >= old(pda_account).last_update_time,
        final(pda_account).staked_amount == old(pda_account).staked_amount,
{
    if signer != pda_account.owner {
        return Err(StakeError::Unauthorized);
    }
    let mut account: StakeAccount = *pda_account;
    match update_points(&mut account, now) {
        Ok(()) => {},
        Err(e) => return Err(e),
    }
    let claimable_points: u64 = account.total_points / POINT_SCALE;
    account.total_points = 0;
    *pda_account = account;
    Ok(claimable_points)
}

/// Reports the would-be settled total of the points accumulator at `now`
/// without mutating any state: a pure projection, not a transition.
pub fn get_points(pda_account: &StakeAccount, signer: u64, now: i64) -> (r: Result<
    u64,
    StakeError,
>)
    ensures
        r is Ok <==> spec_claim_ok(*pda_account, signer, now),
        r is Ok ==> r->Ok_0 == spec_settle(*pda_account, now).total_points,
        r is Err ==> r->Err_0 == spec_claim_err(*pda_account, signer, now),
{
    if signer != pda_account.owner {
        return Err(StakeError::Unauthorized);
    }
    let time_elapsed: u64 = match math::elapsed_seconds(now, pda_account.last_update_time) {
        Ok(e) => e,
        Err(e) => return Err(e),
    };
    if time_elapsed > 0 && pda_account.staked_amount > 0 {
        let new_points: u64 = match calculate_points_earned(
            pda_account.staked_amount,
            time_elapsed,
        ) {
            Ok(p) => p,
            Err(e) => return Err(e),
        };
        math::checked_add_u64(pda_account.total_points, new_points)
    } else {
        Ok(pda_account.total_points)
    }
}

} // verus!
