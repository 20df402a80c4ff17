use staking_contract::coin::claim_points;
use staking_contract::coin::get_points;
use staking_contract::coin::initialize_pda;
use staking_contract::coin::stake;
use staking_contract::coin::unstake;
use staking_contract::coin::update_points;
use staking_contract::coin::calculate_points_earned;
use staking_contract::coin::StakeAccount;
use staking_contract::errors::StakeError;

const ALICE: u64 = 11;
const BOB: u64 = 22;

fn fresh_account(owner: u64, now: i64) -> StakeAccount {
    initialize_pda(owner, 1, now)
}

#[test]
fn initialize_starts_dormant() {
    let account = initialize_pda(ALICE, 5, 42);
    assert_eq!(account.owner, ALICE);
    assert_eq!(account.staked_amount, 0);
    assert_eq!(account.total_points, 0);
    assert_eq!(account.last_update_time, 42);
    assert_eq!(account.bump, 5);
}

#[test]
fn one_sol_day_accrues_exact_points() {
    // Stake 1,000,000 units at t = 0 and settle one day later: the accrual
    // is exactly 1,000,000 * 86,400 * 1,000,000 / 1,000,000,000 / 86,400.
    let mut account = fresh_account(ALICE, 0);
    let mut pda_lamports: u64 = 0;
    let mut wallet: u64 = 1_000_000;
    assert_eq!(stake(&mut account, &mut pda_lamports, &mut wallet, ALICE, 1_000_000, 0), Ok(()));
    assert_eq!(update_points(&mut account, 86_400), Ok(()));
    assert_eq!(account.total_points, 1_000);
    assert_eq!(account.last_update_time, 86_400);
}

#[test]
fn five_sol_two_days_accrues_exact_points() {
    // 5 sol staked for two days earn 10 whole points at the fixed-point
    // scale: 5e9 * 172,800 * 1e6 / 1e9 / 86,400 == 10,000,000.
    let mut account = fresh_account(ALICE, 0);
    let mut pda_lamports: u64 = 0;
    let mut wallet: u64 = 5_000_000_000;
    assert_eq!(stake(&mut account, &mut pda_lamports, &mut wallet, ALICE, 5_000_000_000, 0), Ok(()));
    assert_eq!(update_points(&mut account, 172_800), Ok(()));
    assert_eq!(account.total_points, 10_000_000);
    let mut settled = account;
    let claimed = claim_points(&mut settled, ALICE, 172_800);
    assert_eq!(claimed, Ok(10));
    assert_eq!(settled.total_points, 0);
}

#[test]
fn settle_rejects_time_regression() {
    let mut account = fresh_account(ALICE, 1_000);
    account.staked_amount = 500;
    let before = account;
    assert_eq!(update_points(&mut account, 999), Err(StakeError::TimeRegression));
    assert_eq!(account, before);
}

#[test]
fn settle_is_idempotent() {
    let mut account = fresh_account(ALICE, 0);
    account.staked_amount = 3_000_000_000;
    assert_eq!(update_points(&mut account, 86_400), Ok(()));
    let after_first = account;
    assert_eq!(update_points(&mut account, 86_400), Ok(()));
    assert_eq!(account, after_first);
}

#[test]
fn settlement_time_is_monotonic() {
    let mut account = fresh_account(ALICE, 0);
    let mut pda_lamports: u64 = 0;
    let mut wallet: u64 = 10_000;
    let mut last_seen: i64 = account.last_update_time;
    let readings: [i64; 4] = [10, 10, 500, 86_400];
    for now in readings {
        assert_eq!(stake(&mut account, &mut pda_lamports, &mut wallet, ALICE, 100, now), Ok(()));
        assert!(account.last_update_time >= last_seen);
        last_seen = account.last_update_time;
    }
    assert_eq!(unstake(&mut account, &mut pda_lamports, &mut wallet, ALICE, 50, 100_000), Ok(()));
    assert!(account.last_update_time >= last_seen);
}

#[test]
fn reward_formula_overflow_is_reported() {
    assert_eq!(calculate_points_earned(u64::MAX, u64::MAX), Err(StakeError::Overflow));
}

#[test]
fn settle_overflow_never_wraps() {
    let mut account = fresh_account(ALICE, 0);
    account.staked_amount = u64::MAX;
    let before = account;
    assert_eq!(update_points(&mut account, i64::MAX), Err(StakeError::Overflow));
    assert_eq!(account, before);
}

#[test]
fn stake_requires_positive_amount() {
    let mut account = fresh_account(ALICE, 0);
    let mut pda_lamports: u64 = 0;
    let mut wallet: u64 = 100;
    assert_eq!(
        stake(&mut account, &mut pda_lamports, &mut wallet, ALICE, 0, 10),
        Err(StakeError::InvalidAmount)
    );
    assert_eq!(account.staked_amount, 0);
    assert_eq!(wallet, 100);
}

#[test]
fn stake_requires_matching_owner() {
    let mut account = fresh_account(ALICE, 0);
    let mut pda_lamports: u64 = 0;
    let mut wallet: u64 = 100;
    assert_eq!(
        stake(&mut account, &mut pda_lamports, &mut wallet, BOB, 50, 10),
        Err(StakeError::Unauthorized)
    );
    assert_eq!(account.staked_amount, 0);
}

#[test]
fn stake_requires_funded_wallet() {
    let mut account = fresh_account(ALICE, 0);
    let mut pda_lamports: u64 = 0;
    let mut wallet: u64 = 49;
    assert_eq!(
        stake(&mut account, &mut pda_lamports, &mut wallet, ALICE, 50, 10),
        Err(StakeError::InsufficientFunds)
    );
    assert_eq!(wallet, 49);
    assert_eq!(pda_lamports, 0);
}

#[test]
fn unstake_beyond_stake_is_rejected_unchanged() {
    let mut account = fresh_account(ALICE, 0);
    let mut pda_lamports: u64 = 0;
    let mut wallet: u64 = 1_000;
    assert_eq!(stake(&mut account, &mut pda_lamports, &mut wallet, ALICE, 600, 0), Ok(()));
    let before = account;
    assert_eq!(
        unstake(&mut account, &mut pda_lamports, &mut wallet, ALICE, 601, 50),
        Err(StakeError::InsufficientStake)
    );
    assert_eq!(account, before);
    assert_eq!(pda_lamports, 600);
    assert_eq!(wallet, 400);
}

#[test]
fn partial_unstake_releases_exactly_the_amount() {
    let mut account = fresh_account(ALICE, 0);
    let mut pda_lamports: u64 = 0;
    let mut wallet: u64 = 1_000;
    assert_eq!(stake(&mut account, &mut pda_lamports, &mut wallet, ALICE, 600, 0), Ok(()));
    assert_eq!(unstake(&mut account, &mut pda_lamports, &mut wallet, ALICE, 200, 10), Ok(()));
    assert_eq!(account.staked_amount, 400);
    assert_eq!(pda_lamports, 400);
    assert_eq!(wallet, 600);
}

#[test]
fn escrow_balance_tracks_staked_amount() {
    // Conservation, coin variant: the account's escrow balance always
    // equals its staked amount across any stake/unstake sequence.
    let mut account = fresh_account(ALICE, 0);
    let mut pda_lamports: u64 = 0;
    let mut wallet: u64 = 100_000;
    assert_eq!(stake(&mut account, &mut pda_lamports, &mut wallet, ALICE, 40_000, 0), Ok(()));
    assert_eq!(pda_lamports, account.staked_amount);
    assert_eq!(unstake(&mut account, &mut pda_lamports, &mut wallet, ALICE, 15_000, 5), Ok(()));
    assert_eq!(pda_lamports, account.staked_amount);
    assert_eq!(stake(&mut account, &mut pda_lamports, &mut wallet, ALICE, 7, 9), Ok(()));
    assert_eq!(pda_lamports, account.staked_amount);
    assert_eq!(unstake(&mut account, &mut pda_lamports, &mut wallet, ALICE, 25_007, 9), Ok(()));
    assert_eq!(pda_lamports, account.staked_amount);
    assert_eq!(account.staked_amount, 0);
    assert_eq!(wallet, 100_000);
}

#[test]
fn depositors_never_observe_each_other() {
    let mut alice_account = fresh_account(ALICE, 0);
    let mut alice_escrow: u64 = 0;
    let mut alice_wallet: u64 = 10_000;
    let mut bob_account = fresh_account(BOB, 0);
    let mut bob_escrow: u64 = 0;
    let mut bob_wallet: u64 = 5_000;
    assert_eq!(
        stake(&mut alice_account, &mut alice_escrow, &mut alice_wallet, ALICE, 1_000, 10),
        Ok(())
    );
    let bob_before = bob_account;
    assert_eq!(bob_account, bob_before);
    assert_eq!(bob_escrow, 0);
    assert_eq!(bob_wallet, 5_000);
    assert_eq!(stake(&mut bob_account, &mut bob_escrow, &mut bob_wallet, BOB, 2_000, 20), Ok(()));
    assert_eq!(
        unstake(&mut alice_account, &mut alice_escrow, &mut alice_wallet, ALICE, 1_000, 30),
        Ok(())
    );
    assert_eq!(bob_account.staked_amount, 2_000);
    assert_eq!(bob_escrow, 2_000);
    assert_eq!(alice_account.staked_amount, 0);
    assert_eq!(alice_wallet, 10_000);
}

#[test]
fn get_points_projects_without_mutating() {
    let mut account = fresh_account(ALICE, 0);
    account.staked_amount = 1_000_000;
    let before = account;
    let projected = get_points(&account, ALICE, 86_400);
    assert_eq!(projected, Ok(1_000));
    assert_eq!(account, before);
    assert_eq!(get_points(&account, BOB, 86_400), Err(StakeError::Unauthorized));
    assert_eq!(
        get_points(&account, ALICE, -1),
        Err(StakeError::TimeRegression)
    );
}

#[test]
fn claim_reports_whole_points_and_resets() {
    let mut account = fresh_account(ALICE, 0);
    account.staked_amount = 2_000_000_000;
    // 2 sol for half a day earn 1 whole point: total_points == 1,000,000.
    assert_eq!(claim_points(&mut account, ALICE, 43_200), Ok(1));
    assert_eq!(account.total_points, 0);
    assert_eq!(account.last_update_time, 43_200);
    assert_eq!(account.staked_amount, 2_000_000_000);
    assert_eq!(claim_points(&mut account, BOB, 43_200), Err(StakeError::Unauthorized));
}

#[test]
fn dormant_gap_accrues_nothing_later() {
    // The time mark advances even while nothing is staked, so a later
    // stake cannot collect a burst of points for the dormant gap.
    let mut account = fresh_account(ALICE, 0);
    assert_eq!(update_points(&mut account, 1_000_000), Ok(()));
    assert_eq!(account.total_points, 0);
    assert_eq!(account.last_update_time, 1_000_000);
    let mut pda_lamports: u64 = 0;
    let mut wallet: u64 = 1_000_000_000;
    assert_eq!(
        stake(&mut account, &mut pda_lamports, &mut wallet, ALICE, 1_000_000_000, 1_000_000),
        Ok(())
    );
    assert_eq!(account.total_points, 0);
}
