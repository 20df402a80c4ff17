//! The token-variant staking ledger: the "reward debt" accrual model.
//!
//! One deployment-wide config record holds the reward rate and the staked
//! token's identity; one user record per depositor holds the staked amount,
//! the ordinal slot of its current deposit epoch, and a reward-debt counter
//! subtracted from the nominal accrual formula so that rewards predating
//! the current stake size are never paid twice.  Rewards are realized by
//! minting directly to the depositor at settlement, not accumulated.  A
//! shared vault custodies every depositor's stake; value leaves it only
//! under the escrow authority's delegated signature.  Every handler is
//! atomic: a failed operation changes nothing.

use vstd::arithmetic::mul::lemma_mul_basics;
use vstd::arithmetic::mul::lemma_mul_upper_bound;
use vstd::prelude::*;

use crate::errors::StakeError;
use crate::escrow;
use crate::escrow::EscrowAuthority;
use crate::math;

verus! {

/// The deployment-wide configuration record, written once at
/// initialization and never mutated afterwards.
#[derive(Clone, Copy, Debug, PartialEq, Eq, Structural)]
pub struct ContractInfo {
    /// The deploying authority's identity.
    pub owner: u64,
    /// The start of the intended operating window.  Recorded at
    /// initialization; no handler enforces it.
    pub start_slot: u64,
    /// The end of the intended operating window.  Recorded at
    /// initialization; no handler enforces it.
    pub end_slot: u64,
    /// The identity of the stakeable token.
    pub token_mint: u64,
    /// Reward units accrued per staked token per elapsed slot.
    pub reward_rate_per_token_per_slot: u64,
    /// The discriminant completing the escrow authority's derivation.
    pub auth_bump: u8,
    /// The discriminant completing the vault's derivation.
    pub vault_bump: u8,
}

/// One depositor's staking record, created zeroed on first stake and
/// erased — with its storage cost refunded — when the stake is withdrawn.
#[derive(Clone, Copy, Debug, PartialEq, Eq, Structural)]
pub struct UserInfo {
    /// The amount currently held in the shared vault on this record's
    /// behalf.
    pub amount: u64,
    /// The slot at which the current deposit epoch began.
    pub deposit_slot: u64,
    /// The reward already paid out against the current epoch, subtracted
    /// from the nominal accrual formula.
    pub reward_debt: u64,
}

/// The debt-model reward formula: the nominal accrual over the epoch minus
/// the debt already paid, the subtraction strictly last.
pub open spec fn spec_reward(user: UserInfo, rate: int, now_slot: int) -> int {
    user.amount * (now_slot - user.deposit_slot) * rate - user.reward_debt
}

/// When the reward formula is well defined and fits its arithmetic: the
/// clock has not run backward, the nominal product stays within 128 bits,
/// the debt does not exceed the nominal accrual, and the result fits 64
/// bits.
pub open spec fn spec_reward_ok(user: UserInfo, rate: int, now_slot: int) -> bool {
    &&& now_slot >= user.deposit_slot
    &&& user.amount * (now_slot - user.deposit_slot) * rate <= u128::MAX
    &&& spec_reward(user, rate, now_slot) >= 0
    &&& spec_reward(user, rate, now_slot) <= u64::MAX
}

/// The error a failed reward computation reports, in the order the checks
/// run.
pub open spec fn spec_reward_err(user: UserInfo, rate: int, now_slot: int) -> StakeError {
    if now_slot < user.deposit_slot {
        StakeError::TimeRegression
    } else if user.amount * (now_slot - user.deposit_slot) * rate > u128::MAX {
        StakeError::Overflow
    } else if spec_reward(user, rate, now_slot) < 0 {
        StakeError::Underflow
    } else {
        StakeError::Overflow
    }
}

/// The reward a settlement mints when one is owed: the formula's value
/// when positive, otherwise nothing.
pub open spec fn spec_minted(user: UserInfo, rate: int, now_slot: int) -> int {
    if spec_reward_ok(user, rate, now_slot) && spec_reward(user, rate, now_slot) > 0 {
        spec_reward(user, rate, now_slot)
    } else {
        0
    }
}

/// Creates the deployment's configuration record and mints the vault's
/// release capability.  The transfer of the token's minting authority to
/// that capability is the surrounding shell's value-transfer call; the
/// record keeps only the bump discriminants that complete the derivation.
pub fn initialize(
    owner: u64,
    token_mint: u64,
    reward: u64,
    start_slot: u64,
    end_slot: u64,
    auth_bump: u8,
    vault_bump: u8,
) -> (r: (ContractInfo, EscrowAuthority))
    ensures
        r.0 == (ContractInfo {
            owner,
            start_slot,
            end_slot,
            token_mint,
            reward_rate_per_token_per_slot: reward,
            auth_bump,
            vault_bump,
        }),
        r.1 == (EscrowAuthority { bump: auth_bump }),
{
    let program_config = ContractInfo {
        owner,
        start_slot,
        end_slot,
        token_mint,
        reward_rate_per_token_per_slot: reward,
        auth_bump,
        vault_bump,
    };
    let program_auth = EscrowAuthority { bump: auth_bump };
    (program_config, program_auth)
}

/// Creates a depositor's record in the zeroed state the storage engine
/// hands out on first use: nothing staked, no epoch begun, no debt.
pub fn new_user_info() -> (user_info: UserInfo)
    ensures
        user_info == (UserInfo { amount: 0, deposit_slot: 0, reward_debt: 0 }),
{
    UserInfo { amount: 0, deposit_slot: 0, reward_debt: 0 }
}

/// The reward owed to `user_info` at `current_slot`: the nominal accrual
/// is widened to 128 bits across both multiplications, the debt is
/// subtracted strictly last, and the result narrows back only at the end.
pub fn calculate_reward(
    user_info: &UserInfo,
    contract_info: &ContractInfo,
    current_slot: u64,
) -> (r: Result<u64, StakeError>)
    ensures
        r is Ok <==> spec_reward_ok(
            *user_info,
            contract_info.reward_rate_per_token_per_slot as int,
            current_slot as int,
        ),
        r is Ok ==> r->Ok_0 == spec_reward(
            *user_info,
            contract_info.reward_rate_per_token_per_slot as int,
            current_slot as int,
        ),
        r is Err ==> r->Err_0 == spec_reward_err(
            *user_info,
            contract_info.reward_rate_per_token_per_slot as int,
            current_slot as int,
        ),
{
    let time_elapsed: u64 = match math::elapsed_slots(current_slot, user_info.deposit_slot) {
        Ok(e) => e,
        Err(e) => return Err(e),
    };
    let wide_amount: u128 = user_info.amount as u128;
    let wide_elapsed: u128 = time_elapsed as u128;
    proof {
        lemma_mul_upper_bound(
            wide_amount as int,
            u64::MAX as int,
            wide_elapsed as int,
            u64::MAX as int,
        );
    }
    let product: u128 = match math::checked_mul_u128(wide_amount, wide_elapsed) {
        Ok(p) => p,
        Err(e) => return Err(e),
    };
    let nominal: u128 = match math::checked_mul_u128(
        product,
        contract_info.reward_rate_per_token_per_slot as u128,
    ) {
        Ok(p) => p,
        Err(e) => return Err(e),
    };
    let after_debt: u128 = match math::checked_sub_u128(nominal, user_info.reward_debt as u128) {
        Ok(d) => d,
        Err(e) => return Err(e),
    };
    math::narrow_u128_to_u64(after_debt)
}

/// When a stake of `amount` tokens at `now_slot` succeeds.
pub open spec fn spec_stake_ok(
    config: ContractInfo,
    user: UserInfo,
    user_ata: u64,
    vault: u64,
    token_mint: u64,
    amount: u64,
    now_slot: int,
) -> bool {
    let rate = config.reward_rate_per_token_per_slot as int;
    let minted = if user.amount > 0 {
        spec_minted(user, rate, now_slot)
    } else {
        0
    };
    &&& token_mint == config.token_mint
    &&& amount > 0
    &&& user.amount > 0 ==> spec_reward_ok(user, rate, now_slot)
    &&& user_ata + minted <= u64::MAX
    &&& amount <= user_ata + minted
    &&& vault + amount <= u64::MAX
    &&& user.amount + amount <= u64::MAX
}

/// The error a failed stake reports, in the order the checks run.
pub open spec fn spec_stake_err(
    config: ContractInfo,
    user: UserInfo,
    user_ata: u64,
    vault: u64,
    token_mint: u64,
    amount: u64,
    now_slot: int,
) -> StakeError {
    let rate = config.reward_rate_per_token_per_slot as int;
    let minted = if user.amount > 0 {
        spec_minted(user, rate, now_slot)
    } else {
        0
    };
    if token_mint != config.token_mint {
        StakeError::InvalidAsset
    } else if amount == 0 {
        StakeError::InvalidAmount
    } else if user.amount > 0 && !spec_reward_ok(user, rate, now_slot) {
        spec_reward_err(user, rate, now_slot)
    } else if user_ata + minted > u64::MAX {
        StakeError::Overflow
    } else if user_ata + minted < amount {
        StakeError::InsufficientFunds
    } else if vault + amount > u64::MAX {
        StakeError::Overflow
    } else {
        StakeError::Overflow
    }
}

/// Stakes `amount` tokens: if an earlier stake is present, its pending
/// reward is settled and minted to the depositor first — before the
/// balance changes, so the reward reflects only the pre-existing stake —
/// then `amount` moves from the depositor into the shared vault, the
/// staked amount rises by exactly the amount moved, a fresh epoch begins
/// at `now_slot`, and the debt resets.  Returns the reward minted.
pub fn stake(
    program_info: &ContractInfo,
    user_info: &mut UserInfo,
    user_ata: &mut u64,
    token_vault: &mut u64,
    program_auth: &EscrowAuthority,
    token_mint: u64,
    amount: u64,
    now_slot: u64,
) -> (r: Result<u64, StakeError>)
    ensures
        r is Ok <==> spec_stake_ok(
            *program_info,
            *old(user_info),
            *old(user_ata),
            *old(token_vault),
            token_mint,
            amount,
            now_slot as int,
        ),
        r is Ok ==> r->Ok_0 == (if old(user_info).amount > 0 {
            spec_minted(
                *old(user_info),
                program_info.reward_rate_per_token_per_slot as int,
                now_slot as int,
            )
        } else {
            0
        }),
        r is Ok ==> *final(user_info) == (UserInfo {
            amount: (old(user_info).amount + amount) as u64,
            deposit_slot: now_slot,
            reward_debt: 0,
        }),
        r is Ok ==> *final(user_ata) == *old(user_ata) + r->Ok_0 - amount,
        r is Ok ==> *final(token_vault) == *old(token_vault) + amount,
        r is Err ==> *final(user_info) == *old(user_info) && *final(user_ata) == *old(user_ata)
            && *final(token_vault) == *old(token_vault),
        r is Err ==> r == Err::<u64, StakeError>(
            spec_stake_err(
                *program_info,
                *old(user_info),
                *old(user_ata),
                *old(token_vault),
                token_mint,
                amount,
                now_slot as int,
            ),
        ),
        old(user_info).amount > 0 || old(user_info).deposit_slot == 0
            ==> final(user_info).deposit_slot >= old(user_info).deposit_slot,
        r is Ok ==> final(user_info).amount - old(user_info).amount == *final(token_vault) - *old(token_vault),
{
    if token_mint != program_info.token_mint {
        return Err(StakeError::InvalidAsset);
    }
    if amount == 0 {
        return Err(StakeError::InvalidAmount);
    }
    let mut user: UserInfo = *user_info;
    let mut ata_balance: u64 = *user_ata;
    let mut vault_balance: u64 = *token_vault;
    let mut minted: u64 = 0;
    if user.amount > 0 {
        let rewards: u64 = match calculate_reward(&user, program_info, now_slot) {
            Ok(v) => v,
            Err(e) => return Err(e),
        };
        if rewards > 0 {
            match escrow::mint(program_auth, &mut ata_balance, rewards) {
                Ok(()) => {},
                Err(e) => return Err(e),
            }
            minted = rewards;
        }
    }
    match escrow::transfer(&mut ata_balance, &mut vault_balance, amount) {
        Ok(()) => {},
        Err(e) => return Err(e),
    }
    let new_amount: u64 = match math::checked_add_u64(user.amount, amount) {
        Ok(v) => v,
        Err(e) => return Err(e),
    };
    user.amount = new_amount;
    user.deposit_slot = now_slot;
    user.reward_debt = 0;
    *user_info = user;
    *user_ata = ata_balance;
    *token_vault = vault_balance;
    Ok(minted)
}

/// When a full withdrawal at `now_slot` succeeds.
pub open spec fn spec_unstake_ok(
    config: ContractInfo,
    user: UserInfo,
    user_ata: u64,
    vault: u64,
    token_mint: u64,
    now_slot: int,
) -> bool {
    let rate = config.reward_rate_per_token_per_slot as int;
    let minted = spec_minted(user, rate, now_slot);
    &&& token_mint == config.token_mint
    &&& spec_reward_ok(user, rate, now_slot)
    &&& user_ata + minted <= u64::MAX
    &&& user.amount > 0
    &&& user.amount <= vault
    &&& user_ata + minted + user.amount <= u64::MAX
}

/// The error a failed withdrawal reports, in the order the checks run.
pub open spec fn spec_unstake_err(
    config: ContractInfo,
    user: UserInfo,
    user_ata: u64,
    vault: u64,
    token_mint: u64,
    now_slot: int,
) -> StakeError {
    let rate = config.reward_rate_per_token_per_slot as int;
    let minted = spec_minted(user, rate, now_slot);
    if token_mint != config.token_mint {
        StakeError::InvalidAsset
    } else if !spec_reward_ok(user, rate, now_slot) {
        spec_reward_err(user, rate, now_slot)
    } else if user_ata + minted > u64::MAX {
        StakeError::Overflow
    } else if user.amount == 0 {
        StakeError::InsufficientStake
    } else if vault < user.amount {
        StakeError::InsufficientFunds
    } else {
        StakeError::Overflow
    }
}

/// Withdraws the entire stake: settles and mints any pending reward, then
/// releases the whole staked amount from the vault back to the depositor
/// under the escrow authority's delegated signature, and erases the
/// depositor's record — the storage engine refunds its cost, closing the
/// account.  Returns the amount withdrawn.
pub fn un_stake(
    pgm_info: &ContractInfo,
    user_info: &mut UserInfo,
    user_ata: &mut u64,
    vault: &mut u64,
    mint_auth: &EscrowAuthority,
    token_mint: u64,
    now_slot: u64,
) -> (r: Result<u64, StakeError>)
    ensures
        r is Ok <==> spec_unstake_ok(
            *pgm_info,
            *old(user_info),
            *old(user_ata),
            *old(vault),
            token_mint,
            now_slot as int,
        ),
        r is Ok ==> r->Ok_0 == old(user_info).amount,
        r is Ok ==> *final(user_info) == (UserInfo { amount: 0, deposit_slot: 0, reward_debt: 0 }),
        r is Ok ==> *final(user_ata) == *old(user_ata) + spec_minted(
            *old(user_info),
            pgm_info.reward_rate_per_token_per_slot as int,
            now_slot as int,
        ) + old(user_info).amount,
        r is Ok ==> *final(vault) == *old(vault) - old(user_info).amount,
        r is Err ==> *final(user_info) == *old(user_info) && *final(user_ata) == *old(user_ata)
            && *final(vault) == *old(vault),
        r is Err ==> r == Err::<u64, StakeError>(
            spec_unstake_err(
                *pgm_info,
                *old(user_info),
                *old(user_ata),
                *old(vault),
                token_mint,
                now_slot as int,
            ),
        ),
        r is Ok ==> old(user_info).amount - final(user_info).amount == *old(vault) - *final(vault),
{
    if token_mint != pgm_info.token_mint {
        return Err(StakeError::InvalidAsset);
    }
    let mut user: UserInfo = *user_info;
    let mut ata_balance: u64 = *user_ata;
    let mut vault_balance: u64 = *vault;
    let rewards: u64 = match calculate_reward(&user, pgm_info, now_slot) {
        Ok(v) => v,
        Err(e) => return Err(e),
    };
    if rewards > 0 {
        match escrow::mint(mint_auth, &mut ata_balance, rewards) {
            Ok(()) => {},
            Err(e) => return Err(e),
        }
    }
    let amount_to_unstake: u64 = user.amount;
    if amount_to_unstake == 0 {
        return Err(StakeError::InsufficientStake);
    }
    match escrow::transfer_with_authority(
        mint_auth,
        &mut vault_balance,
        &mut ata_balance,
        amount_to_unstake,
    ) {
        Ok(()) => {},
        Err(e) => return Err(e),
    }
    user = UserInfo { amount: 0, deposit_slot: 0, reward_debt: 0 };
    *user_info = user;
    *user_ata = ata_balance;
    *vault = vault_balance;
    Ok(amount_to_unstake)
}

/// When a claim at `now_slot` succeeds: the token variant's claim strictly
/// requires a positive payout.
pub open spec fn spec_claim_ok(
    config: ContractInfo,
    user: UserInfo,
    user_ata: u64,
    token_mint: u64,
    now_slot: int,
) -> bool {
    let rate = config.reward_rate_per_token_per_slot as int;
    &&& token_mint == config.token_mint
    &&& spec_reward_ok(user, rate, now_slot)
    &&& spec_reward(user, rate, now_slot) > 0
    &&& user_ata + spec_reward(user, rate, now_slot) <= u64::MAX
}

/// The error a failed claim reports, in the order the checks run.
pub open spec fn spec_claim_err(
    config: ContractInfo,
    user: UserInfo,
    user_ata: u64,
    token_mint: u64,
    now_slot: int,
) -> StakeError {
    let rate = config.reward_rate_per_token_per_slot as int;
    if token_mint != config.token_mint {
        StakeError::InvalidAsset
    } else if !spec_reward_ok(user, rate, now_slot) {
        spec_reward_err(user, rate, now_slot)
    } else if spec_reward(user, rate, now_slot) == 0 {
        StakeError::ZeroAmount
    } else {
        StakeError::Overflow
    }
}

/// Claims the pending reward: settles, mints the whole outstanding reward
/// to the depositor, starts a fresh epoch at `now_slot` and resets the
/// debt — so a second claim at the same slot has nothing left to pay.
/// Returns the reward minted.
pub fn claim_points(
    pgm_info: &ContractInfo,
    user_info: &mut UserInfo,
    user_ata: &mut u64,
    mint_auth: &EscrowAuthority,
    token_mint: u64,
    now_slot: u64,
) -> (r: Result<u64, StakeError>)
    ensures
        r is Ok <==> spec_claim_ok(
            *pgm_info,
            *old(user_info),
            *old(user_ata),
            token_mint,
            now_slot as int,
        ),
        r is Ok ==> r->Ok_0 == spec_reward(
            *old(user_info),
            pgm_info.reward_rate_per_token_per_slot as int,
            now_slot as int,
        ),
        r is Ok ==> *final(user_info) == (UserInfo {
            amount: old(user_info).amount,
            deposit_slot: now_slot,
            reward_debt: 0,
        }),
        r is Ok ==> *final(user_ata) == *old(user_ata) + r->Ok_0,
        r is Err ==> *final(user_info) == *old(user_info) && *final(user_ata) == *old(user_ata),
        r is Err ==> r == Err::<u64, StakeError>(
            spec_claim_err(*pgm_info, *old(user_info), *old(user_ata), token_mint, now_slot as int),
        ),
        r is Ok ==> spec_reward(
            *final(user_info),
            pgm_info.reward_rate_per_token_per_slot as int,
            now_slot as int,
        ) == 0,
        final(user_info).deposit_slot >= old(user_info).deposit_slot,
        final(user_info).amount == old(user_info).amount,
{
    if token_mint != pgm_info.token_mint {
        return Err(StakeError::InvalidAsset);
    }
    let mut user: UserInfo = *user_info;
    let mut ata_balance: u64 = *user_ata;
    let rewards: u64 = match calculate_reward(&user, pgm_info, now_slot) {
        Ok(v) => v,
        Err(e) => return Err(e),
    };
    if rewards == 0 {
        return Err(StakeError::ZeroAmount);
    }
    match escrow::mint(mint_auth, &mut ata_balance, rewards) {
        Ok(()) => {},
        Err(e) => return Err(e),
    }
    user.deposit_slot = now_slot;
    user.reward_debt = 0;
    proof {
        lemma_mul_basics(user.amount as int);
        lemma_mul_basics(pgm_info.reward_rate_per_token_per_slot as int);
    }
    *user_info = user;
    *user_ata = ata_balance;
    Ok(rewards)
}

} // verus!
