use staking_contract::errors::StakeError;
use staking_contract::escrow::mint;
use staking_contract::escrow::transfer;
use staking_contract::escrow::transfer_with_authority;
use staking_contract::escrow::EscrowAuthority;
use staking_contract::math::checked_add_u64;
use staking_contract::math::checked_div_u128;
use staking_contract::math::checked_mul_u128;
use staking_contract::math::checked_sub_u128;
use staking_contract::math::checked_sub_u64;
use staking_contract::math::elapsed_seconds;
use staking_contract::math::elapsed_slots;
use staking_contract::math::narrow_u128_to_u64;

#[test]
fn transfer_moves_exactly_the_amount() {
    let mut from: u64 = 1_000;
    let mut to: u64 = 5;
    assert_eq!(transfer(&mut from, &mut to, 300), Ok(()));
    assert_eq!(from, 700);
    assert_eq!(to, 305);
    assert_eq!(from + to, 1_005);
}

#[test]
fn transfer_rejects_an_underfunded_source() {
    let mut from: u64 = 10;
    let mut to: u64 = 0;
    assert_eq!(transfer(&mut from, &mut to, 11), Err(StakeError::InsufficientFunds));
    assert_eq!(from, 10);
    assert_eq!(to, 0);
}

#[test]
fn transfer_rejects_a_destination_overflow() {
    let mut from: u64 = 10;
    let mut to: u64 = u64::MAX - 5;
    assert_eq!(transfer(&mut from, &mut to, 6), Err(StakeError::Overflow));
    assert_eq!(from, 10);
    assert_eq!(to, u64::MAX - 5);
}

#[test]
fn authority_transfer_releases_from_escrow() {
    let authority = EscrowAuthority { bump: 7 };
    let mut vault: u64 = 900;
    let mut wallet: u64 = 100;
    assert_eq!(transfer_with_authority(&authority, &mut vault, &mut wallet, 900), Ok(()));
    assert_eq!(vault, 0);
    assert_eq!(wallet, 1_000);
}

#[test]
fn mint_creates_new_units() {
    let authority = EscrowAuthority { bump: 7 };
    let mut destination: u64 = 40;
    assert_eq!(mint(&authority, &mut destination, 2), Ok(()));
    assert_eq!(destination, 42);
    let mut full: u64 = u64::MAX;
    assert_eq!(mint(&authority, &mut full, 1), Err(StakeError::Overflow));
    assert_eq!(full, u64::MAX);
}

#[test]
fn checked_ops_report_instead_of_wrapping() {
    assert_eq!(checked_add_u64(u64::MAX, 1), Err(StakeError::Overflow));
    assert_eq!(checked_add_u64(2, 3), Ok(5));
    assert_eq!(checked_sub_u64(3, 5), Err(StakeError::Underflow));
    assert_eq!(checked_sub_u64(5, 3), Ok(2));
    assert_eq!(checked_mul_u128(u128::MAX, 2), Err(StakeError::Overflow));
    assert_eq!(checked_mul_u128(6, 7), Ok(42));
    assert_eq!(checked_div_u128(7, 0), Err(StakeError::Overflow));
    assert_eq!(checked_div_u128(7, 2), Ok(3));
    assert_eq!(checked_sub_u128(1, 2), Err(StakeError::Underflow));
    assert_eq!(checked_sub_u128(2, 1), Ok(1));
    assert_eq!(narrow_u128_to_u64(u64::MAX as u128 + 1), Err(StakeError::Overflow));
    assert_eq!(narrow_u128_to_u64(17), Ok(17));
}

#[test]
fn elapsed_measures_forward_time_only() {
    assert_eq!(elapsed_seconds(100, 40), Ok(60));
    assert_eq!(elapsed_seconds(40, 100), Err(StakeError::TimeRegression));
    assert_eq!(elapsed_seconds(i64::MAX, i64::MIN), Ok(u64::MAX));
    assert_eq!(elapsed_slots(100, 40), Ok(60));
    assert_eq!(elapsed_slots(40, 100), Err(StakeError::TimeRegression));
}
