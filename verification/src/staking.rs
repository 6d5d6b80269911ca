//! The operations on a base position: stake, unstake, fee deposit, claim and
//! auto-compound. Each one either succeeds as a whole or changes nothing, and
//! reports the amounts that the caller has to move between balances. The
//! caller moves them, and keeps the new records only if every transfer went
//! through.

use vstd::prelude::*;
use crate::error::CustomError;
use crate::math::{checked_add, checked_sub, elapsed, elapsed_spec, mul_div, BASIS_POINTS, REWARD_MULTIPLIER};
use crate::rewards::{
    accumulated, claim_gate, claim_gate_spec, claim_reward, claim_reward_spec, pending_owed,
    reward_debt, settle, settle_spec, SECONDS_IN_DAY,
};
use crate::state::{GlobalState, PoolInfo, UserStake, POOL_COUNT};

verus! {

/// What a withdrawal moves out of the staking pool.
#[derive(Clone, Copy, Debug, PartialEq, Eq)]
pub struct Withdrawal {
    /// Paid to the participant.
    pub payout: u64,
    /// Withheld for leaving early and moved to the reward pool.
    pub penalty: u64,
}

/// Whether a position is still inside its tier's lockup at `now`.
pub open spec fn is_locked(state: GlobalState, user: UserStake, now: i64) -> bool
    recommends
        user.pool_type < POOL_COUNT,
{
    elapsed_spec(now, user.stake_timestamp) < state.pool_info[user.pool_type as int].lockup_period
}

/// The penalty for withdrawing `amount` at `now`: the early-withdrawal rate
/// of the amount while the position is locked, nothing afterwards.
pub open spec fn early_penalty(state: GlobalState, user: UserStake, amount: u64, now: i64) -> int
    recommends
        user.pool_type < POOL_COUNT,
{
    if is_locked(state, user, now) {
        (amount as int * state.early_withdrawal_penalty as int) / (BASIS_POINTS as int)
    } else {
        0
    }
}

/// Why an unstake is refused, if it is.
pub open spec fn unstake_refusal(
    state: GlobalState,
    user: UserStake,
    amount: u64,
    now: i64,
) -> Option<CustomError> {
    if user.staked_amount < amount {
        Some(CustomError::InsufficientStake)
    } else if elapsed_spec(now, user.last_withdrawal_time) < state.min_withdraw_interval {
        Some(CustomError::WithdrawalTooFrequent)
    } else if settle_spec(
        user.staked_amount,
        user.reward_debt,
        user.pending_rewards,
        state.acc_reward_per_share,
    ) is Err {
        Some(CustomError::MathOverflow)
    } else if user.pool_type >= POOL_COUNT {
        Some(CustomError::InvalidPoolType)
    } else if early_penalty(state, user, amount, now) > amount
        || state.insurance_fund + early_penalty(state, user, amount, now) > u64::MAX
        || state.total_staked < amount
        || accumulated((user.staked_amount - amount) as u64, state.acc_reward_per_share)
        > u64::MAX {
        Some(CustomError::MathOverflow)
    } else {
        None
    }
}

/// The ledger after a permitted unstake.
pub open spec fn state_after_unstake(
    state: GlobalState,
    user: UserStake,
    amount: u64,
    now: i64,
) -> GlobalState {
    GlobalState {
        total_staked: (state.total_staked - amount) as u64,
        insurance_fund: (state.insurance_fund + early_penalty(state, user, amount, now)) as u64,
        ..state
    }
}

/// The position after a permitted unstake.
pub open spec fn position_after_unstake(
    state: GlobalState,
    user: UserStake,
    amount: u64,
    now: i64,
) -> UserStake {
    UserStake {
        staked_amount: (user.staked_amount - amount) as u64,
        reward_debt: accumulated(
            (user.staked_amount - amount) as u64,
            state.acc_reward_per_share,
        ) as u64,
        pending_rewards: settle_spec(
            user.staked_amount,
            user.reward_debt,
            user.pending_rewards,
            state.acc_reward_per_share,
        ).unwrap(),
        last_withdrawal_time: now,
        ..user
    }
}

/// What a permitted unstake moves.
pub open spec fn withdrawal_spec(
    state: GlobalState,
    user: UserStake,
    amount: u64,
    now: i64,
) -> Withdrawal {
    Withdrawal {
        payout: (amount - early_penalty(state, user, amount, now)) as u64,
        penalty: early_penalty(state, user, amount, now) as u64,
    }
}

/// Withdraws `amount` from a position. The position is settled first; while
/// it is locked the early-withdrawal penalty is withheld from the payout and
/// added to the insurance fund.
pub fn unstake(
    state: &mut GlobalState,
    user: &mut UserStake,
    amount: u64,
    now: i64,
) -> (r: Result<Withdrawal, CustomError>)
    ensures
        match unstake_refusal(*old(state), *old(user), amount, now) {
            Some(e) => r == Err::<Withdrawal, CustomError>(e) && *final(state) == *old(state)
                && *final(user) == *old(user),
            None => r == Ok::<Withdrawal, CustomError>(
                withdrawal_spec(*old(state), *old(user), amount, now),
            ) && *final(state) == state_after_unstake(*old(state), *old(user), amount, now)
                && *final(user) == position_after_unstake(*old(state), *old(user), amount, now),
        },
        final(state).acc_reward_per_share == old(state).acc_reward_per_share,
        r is Ok ==> pending_owed(
            final(user).staked_amount,
            final(user).reward_debt,
            final(state).acc_reward_per_share,
        ) == 0,
{
    if user.staked_amount < amount {
        return Err(CustomError::InsufficientStake);
    }
    if elapsed(now, user.last_withdrawal_time) < state.min_withdraw_interval as i128 {
        return Err(CustomError::WithdrawalTooFrequent);
    }
    let pending = settle(
        user.staked_amount,
        user.reward_debt,
        user.pending_rewards,
        state.acc_reward_per_share,
    )?;
    if user.pool_type >= POOL_COUNT {
        return Err(CustomError::InvalidPoolType);
    }
    let pool: PoolInfo = state.pool_info[user.pool_type as usize];
    let locked = elapsed(now, user.stake_timestamp) < pool.lockup_period as i128;
    let penalty: u64 = if locked {
        mul_div(amount, state.early_withdrawal_penalty, BASIS_POINTS)?
    } else {
        0
    };
    let payout = checked_sub(amount, penalty)?;
    let insurance_fund = checked_add(state.insurance_fund, penalty)?;
    let staked = checked_sub(user.staked_amount, amount)?;
    let total_staked = checked_sub(state.total_staked, amount)?;
    let debt = reward_debt(staked, state.acc_reward_per_share)?;
    state.insurance_fund = insurance_fund;
    state.total_staked = total_staked;
    user.pending_rewards = pending;
    user.staked_amount = staked;
    user.reward_debt = debt;
    user.last_withdrawal_time = now;
    Ok(Withdrawal { payout, penalty })
}

/// What a claim pays, or why it is refused: the gates, then settlement, then
/// the multipliers; a reward of zero is refused, and so is a baseline that
/// no longer fits in 64 bits.
pub open spec fn claim_outcome(
    state: GlobalState,
    user: UserStake,
    proof_ok: bool,
    now: i64,
) -> Result<u64, CustomError> {
    match claim_gate_spec(
        proof_ok,
        now,
        user.stake_timestamp,
        state.cooldown_period,
        state.last_fee_deposit_time,
        state.min_claim_delay,
    ) {
        Some(e) => Err(e),
        None => match settle_spec(
            user.staked_amount,
            user.reward_debt,
            user.pending_rewards,
            state.acc_reward_per_share,
        ) {
            Err(e) => Err(e),
            Ok(settled) => match claim_reward_spec(
                settled,
                elapsed_spec(now, user.stake_timestamp),
                state.utilization_multiplier,
                user.trade_volume_7d,
            ) {
                Err(e) => Err(e),
                Ok(reward) => if reward == 0 {
                    Err(CustomError::NoRewards)
                } else if accumulated(user.staked_amount, state.acc_reward_per_share)
                    > u64::MAX {
                    Err(CustomError::MathOverflow)
                } else {
                    Ok(reward)
                },
            },
        },
    }
}

/// The position after a permitted claim: nothing pending, baseline current.
pub open spec fn position_after_claim(state: GlobalState, user: UserStake) -> UserStake {
    UserStake {
        pending_rewards: 0,
        reward_debt: accumulated(user.staked_amount, state.acc_reward_per_share) as u64,
        ..user
    }
}

/// Claims a position's rewards, given the verdict of the proof check, and
/// returns the amount to pay out of the reward pool.
pub fn claim(
    state: &GlobalState,
    user: &mut UserStake,
    proof_ok: bool,
    now: i64,
) -> (r: Result<u64, CustomError>)
    ensures
        r == claim_outcome(*state, *old(user), proof_ok, now),
        r is Ok ==> *final(user) == position_after_claim(*state, *old(user)),
        r is Err ==> *final(user) == *old(user),
        r is Ok ==> pending_owed(
            final(user).staked_amount,
            final(user).reward_debt,
            state.acc_reward_per_share,
        ) == 0,
{
    claim_gate(
        proof_ok,
        now,
        user.stake_timestamp,
        state.cooldown_period,
        state.last_fee_deposit_time,
        state.min_claim_delay,
    )?;
    let settled = settle(
        user.staked_amount,
        user.reward_debt,
        user.pending_rewards,
        state.acc_reward_per_share,
    )?;
    let reward = claim_reward(
        settled,
        elapsed(now, user.stake_timestamp),
        state.utilization_multiplier,
        user.trade_volume_7d,
    )?;
    if reward == 0 {
        return Err(CustomError::NoRewards);
    }
    let debt = reward_debt(user.staked_amount, state.acc_reward_per_share)?;
    user.pending_rewards = 0;
    user.reward_debt = debt;
    Ok(reward)
}

/// Whether an anti-manipulation proof passes: it must not be empty.
pub fn verify_mev_proof(proof: &str) -> (ok: bool)
    ensures
        ok == (proof@.len() > 0),
{
    !proof.is_empty()
}

/// Claims a position's rewards against the given proof and returns the
/// amount to pay out of the reward pool.
pub fn claim_rewards(
    state: &GlobalState,
    user: &mut UserStake,
    proof: String,
    now: i64,
) -> (r: Result<u64, CustomError>)
    ensures
        r == claim_outcome(*state, *old(user), proof@.len() > 0, now),
        r is Ok ==> *final(user) == position_after_claim(*state, *old(user)),
        r is Err ==> *final(user) == *old(user),
        r is Ok ==> pending_owed(
            final(user).staked_amount,
            final(user).reward_debt,
            state.acc_reward_per_share,
        ) == 0,
{
    let proof_ok = verify_mev_proof(proof.as_str());
    claim(state, user, proof_ok, now)
}

/// What an auto-compound restakes, or why it is refused: the claim's own
/// outcome, unless the claimed amount no longer fits on top of the position
/// or of the total.
pub open spec fn compound_outcome(
    state: GlobalState,
    user: UserStake,
    proof_ok: bool,
    now: i64,
) -> Result<u64, CustomError> {
    match claim_outcome(state, user, proof_ok, now) {
        Err(e) => Err(e),
        Ok(reward) => if user.staked_amount + reward > u64::MAX || state.total_staked + reward
            > u64::MAX || accumulated(
            (user.staked_amount + reward) as u64,
            state.acc_reward_per_share,
        ) > u64::MAX {
            Err(CustomError::MathOverflow)
        } else {
            Ok(reward)
        },
    }
}

/// The ledger after `reward` has been claimed and restaked.
pub open spec fn state_after_compound(state: GlobalState, reward: u64) -> GlobalState {
    GlobalState { total_staked: (state.total_staked + reward) as u64, ..state }
}

/// The position after `reward` has been claimed and restaked at `now`.
pub open spec fn position_after_compound(
    state: GlobalState,
    user: UserStake,
    reward: u64,
    now: i64,
) -> UserStake {
    UserStake {
        staked_amount: (user.staked_amount + reward) as u64,
        reward_debt: accumulated(
            (user.staked_amount + reward) as u64,
            state.acc_reward_per_share,
        ) as u64,
        pending_rewards: 0,
        stake_timestamp: now,
        ..user
    }
}

/// Claims a position's rewards, given the verdict of the proof check, and
/// stakes exactly the claimed amount on top of the position. Returns that
/// amount, which the caller moves from the reward pool into the staking
/// pool.
pub fn compound(
    state: &mut GlobalState,
    user: &mut UserStake,
    proof_ok: bool,
    now: i64,
) -> (r: Result<u64, CustomError>)
    ensures
        r == compound_outcome(*old(state), *old(user), proof_ok, now),
        match r {
            Ok(reward) => *final(user) == position_after_compound(
                *old(state),
                *old(user),
                reward,
                now,
            ) && *final(state) == state_after_compound(*old(state), reward),
            Err(_) => *final(user) == *old(user) && *final(state) == *old(state),
        },
        final(state).acc_reward_per_share == old(state).acc_reward_per_share,
        r is Ok ==> pending_owed(
            final(user).staked_amount,
            final(user).reward_debt,
            final(state).acc_reward_per_share,
        ) == 0,
{
    let mut claimed: UserStake = *user;
    let reward = claim(state, &mut claimed, proof_ok, now)?;
    let staked = checked_add(claimed.staked_amount, reward)?;
    let total_staked = checked_add(state.total_staked, reward)?;
    let debt = reward_debt(staked, state.acc_reward_per_share)?;
    state.total_staked = total_staked;
    user.staked_amount = staked;
    user.reward_debt = debt;
    user.pending_rewards = 0;
    user.stake_timestamp = now;
    Ok(reward)
}

/// Claims a position's rewards against the given proof and stakes exactly
/// the claimed amount on top of the position. Returns that amount, which the
/// caller moves from the reward pool into the staking pool.
pub fn auto_compound(
    state: &mut GlobalState,
    user: &mut UserStake,
    proof: String,
    now: i64,
) -> (r: Result<u64, CustomError>)
    ensures
        r == compound_outcome(*old(state), *old(user), proof@.len() > 0, now),
        match r {
            Ok(reward) => *final(user) == position_after_compound(
                *old(state),
                *old(user),
                reward,
                now,
            ) && *final(state) == state_after_compound(*old(state), reward),
            Err(_) => *final(user) == *old(user) && *final(state) == *old(state),
        },
        final(state).acc_reward_per_share == old(state).acc_reward_per_share,
        r is Ok ==> pending_owed(
            final(user).staked_amount,
            final(user).reward_debt,
            final(state).acc_reward_per_share,
        ) == 0,
{
    let proof_ok = verify_mev_proof(proof.as_str());
    compound(state, user, proof_ok, now)
}

/// Why a stake is refused, if it is.
pub open spec fn stake_refusal(
    state: GlobalState,
    user: UserStake,
    amount: u64,
    pool_type: u8,
) -> Option<CustomError> {
    if pool_type >= POOL_COUNT {
        Some(CustomError::InvalidPoolType)
    } else if settle_spec(
        user.staked_amount,
        user.reward_debt,
        user.pending_rewards,
        state.acc_reward_per_share,
    ) is Err || user.staked_amount + amount > u64::MAX || state.total_staked + amount > u64::MAX
        || accumulated((user.staked_amount + amount) as u64, state.acc_reward_per_share)
        > u64::MAX {
        Some(CustomError::MathOverflow)
    } else {
        None
    }
}

/// The ledger after a permitted stake of `amount`.
pub open spec fn state_after_stake(state: GlobalState, amount: u64) -> GlobalState {
    GlobalState { total_staked: (state.total_staked + amount) as u64, ..state }
}

/// The position after a permitted stake of `amount` into tier `pool_type`.
pub open spec fn position_after_stake(
    state: GlobalState,
    user: UserStake,
    amount: u64,
    pool_type: u8,
    now: i64,
) -> UserStake {
    UserStake {
        staked_amount: (user.staked_amount + amount) as u64,
        reward_debt: accumulated(
            (user.staked_amount + amount) as u64,
            state.acc_reward_per_share,
        ) as u64,
        pending_rewards: settle_spec(
            user.staked_amount,
            user.reward_debt,
            user.pending_rewards,
            state.acc_reward_per_share,
        ).unwrap(),
        stake_timestamp: now,
        last_withdrawal_time: now,
        pool_type,
        ..user
    }
}

/// Stakes `amount` into tier `pool_type`. The position is settled first;
/// adding to an open position moves it to the new tier and restarts its
/// lockup and time-multiplier clocks.
pub fn stake(
    state: &mut GlobalState,
    user: &mut UserStake,
    amount: u64,
    pool_type: u8,
    now: i64,
) -> (r: Result<(), CustomError>)
    ensures
        match stake_refusal(*old(state), *old(user), amount, pool_type) {
            Some(e) => r == Err::<(), CustomError>(e) && *final(state) == *old(state) && *final(user) == *old(user),
            None => r is Ok && *final(state) == state_after_stake(*old(state), amount) && *final(user) == position_after_stake(
                *old(state),
                *old(user),
                amount,
                pool_type,
                now,
            ),
        },
        final(state).acc_reward_per_share == old(state).acc_reward_per_share,
        r is Ok ==> pending_owed(
            final(user).staked_amount,
            final(user).reward_debt,
            final(state).acc_reward_per_share,
        ) == 0,
        r is Ok ==> final(user).well_formed(),
{
    if pool_type >= POOL_COUNT {
        return Err(CustomError::InvalidPoolType);
    }
    let pending = settle(
        user.staked_amount,
        user.reward_debt,
        user.pending_rewards,
        state.acc_reward_per_share,
    )?;
    let staked = checked_add(user.staked_amount, amount)?;
    let total_staked = checked_add(state.total_staked, amount)?;
    let debt = reward_debt(staked, state.acc_reward_per_share)?;
    state.total_staked = total_staked;
    user.pending_rewards = pending;
    user.staked_amount = staked;
    user.reward_debt = debt;
    user.stake_timestamp = now;
    user.last_withdrawal_time = now;
    user.pool_type = pool_type;
    Ok(())
}

/// The insurance cut of a fee deposit.
pub open spec fn insurance_cut(state: GlobalState, amount: u64) -> int {
    (amount as int * state.insurance_fee_percent as int) / (BASIS_POINTS as int)
}

/// What a fee deposit adds to the accumulator: the distributable part per
/// unit staked, or nothing while nothing is staked.
pub open spec fn accumulator_gain(state: GlobalState, amount: u64) -> int {
    if state.total_staked > 0 {
        ((amount - insurance_cut(state, amount)) * REWARD_MULTIPLIER) / (
        state.total_staked as int)
    } else {
        0
    }
}

/// Whether a fee deposit is permitted: the cut does not exceed the deposit,
/// and the fund and the accumulator stay within 64 bits.
pub open spec fn deposit_permitted(state: GlobalState, amount: u64) -> bool {
    &&& insurance_cut(state, amount) <= amount
    &&& state.insurance_fund + insurance_cut(state, amount) <= u64::MAX
    &&& state.acc_reward_per_share + accumulator_gain(state, amount) <= u64::MAX
}

/// The ledger after a permitted fee deposit.
pub open spec fn state_after_deposit(state: GlobalState, amount: u64, now: i64) -> GlobalState {
    GlobalState {
        insurance_fund: (state.insurance_fund + insurance_cut(state, amount)) as u64,
        acc_reward_per_share: (state.acc_reward_per_share + accumulator_gain(state, amount)) as u64,
        last_fee_deposit_time: now,
        ..state
    }
}

/// Books a fee deposit of `amount`: skims the insurance cut and spreads the
/// rest over the staked units. While nothing is staked the rest is left in
/// the reward pool and the accumulator does not move.
pub fn deposit_transaction_fee(
    state: &mut GlobalState,
    amount: u64,
    now: i64,
) -> (r: Result<(), CustomError>)
    ensures
        deposit_permitted(*old(state), amount) ==> r is Ok && *final(state) == state_after_deposit(
            *old(state),
            amount,
            now,
        ),
        !deposit_permitted(*old(state), amount) ==> r == Err::<(), CustomError>(
            CustomError::MathOverflow,
        ) && *final(state) == *old(state),
        final(state).acc_reward_per_share >= old(state).acc_reward_per_share,
        old(state).total_staked == 0 ==> final(state).acc_reward_per_share == old(state).acc_reward_per_share,
{
    let insurance_fee = mul_div(amount, state.insurance_fee_percent, BASIS_POINTS)?;
    let distributable = checked_sub(amount, insurance_fee)?;
    let insurance_fund = checked_add(state.insurance_fund, insurance_fee)?;
    let mut acc = state.acc_reward_per_share;
    if state.total_staked > 0 {
        let gain = mul_div(distributable, REWARD_MULTIPLIER, state.total_staked)?;
        acc = checked_add(acc, gain)?;
    }
    state.insurance_fund = insurance_fund;
    state.acc_reward_per_share = acc;
    state.last_fee_deposit_time = now;
    Ok(())
}

/// The sum of a list of amounts, over the mathematical integers.
pub open spec fn total_of(amounts: Seq<u64>) -> int
    decreases amounts.len(),
{
    if amounts.len() == 0 {
        0
    } else {
        total_of(amounts.drop_last()) + amounts.last()
    }
}

/// A list of amounts sums to at least the sum of each of its prefixes.
pub proof fn lemma_total_of_prefix(amounts: Seq<u64>, n: int)
    requires
        0 <= n <= amounts.len(),
    ensures
        0 <= total_of(amounts.take(n)) <= total_of(amounts),
    decreases amounts.len() - n,
{
    if n == amounts.len() {
        assert(amounts.take(n) =~= amounts);
        lemma_total_of_nonnegative(amounts);
    } else {
        lemma_total_of_prefix(amounts, n + 1);
        assert(amounts.take(n + 1).drop_last() =~= amounts.take(n));
        lemma_total_of_nonnegative(amounts.take(n));
    }
}

/// A sum of amounts is never negative.
pub proof fn lemma_total_of_nonnegative(amounts: Seq<u64>)
    ensures
        0 <= total_of(amounts),
    decreases amounts.len(),
{
    if amounts.len() > 0 {
        lemma_total_of_nonnegative(amounts.drop_last());
    }
}

/// Adds up a list of amounts, refusing to wrap.
pub fn sum_amounts(amounts: &Vec<u64>) -> (r: Result<u64, CustomError>)
    ensures
        total_of(amounts@) <= u64::MAX ==> r == Ok::<u64, CustomError>(total_of(amounts@) as u64),
        total_of(amounts@) > u64::MAX ==> r == Err::<u64, CustomError>(CustomError::MathOverflow),
{
    let mut total: u64 = 0;
    let mut i: usize = 0;
    while i < amounts.len()
        invariant
            0 <= i <= amounts.len(),
            total == total_of(amounts@.take(i as int)),
        decreases amounts.len() - i,
    {
        proof {
            assert(amounts@.take(i + 1).drop_last() =~= amounts@.take(i as int));
            lemma_total_of_prefix(amounts@, i + 1);
        }
        total = checked_add(total, amounts[i])?;
        i += 1;
    }
    proof {
        assert(amounts@.take(i as int) =~= amounts@);
    }
    Ok(total)
}

/// Stakes the sum of `amounts` into tier `pool_type` as one stake, and
/// returns the sum.
pub fn batch_stake(
    state: &mut GlobalState,
    user: &mut UserStake,
    amounts: Vec<u64>,
    pool_type: u8,
    now: i64,
) -> (r: Result<u64, CustomError>)
    ensures
        total_of(amounts@) > u64::MAX ==> r == Err::<u64, CustomError>(CustomError::MathOverflow)
            && *final(state) == *old(state) && *final(user) == *old(user),
        total_of(amounts@) <= u64::MAX ==> match stake_refusal(
            *old(state),
            *old(user),
            total_of(amounts@) as u64,
            pool_type,
        ) {
            Some(e) => r == Err::<u64, CustomError>(e) && *final(state) == *old(state)
                && *final(user) == *old(user),
            None => r == Ok::<u64, CustomError>(total_of(amounts@) as u64) && *final(state)
                == state_after_stake(*old(state), total_of(amounts@) as u64) && *final(user)
                == position_after_stake(
                *old(state),
                *old(user),
                total_of(amounts@) as u64,
                pool_type,
                now,
            ),
        },
        final(state).acc_reward_per_share == old(state).acc_reward_per_share,
{
    proof {
        lemma_total_of_nonnegative(amounts@);
    }
    let total = sum_amounts(&amounts)?;
    stake(state, user, total, pool_type, now)?;
    Ok(total)
}

/// Withdraws the sum of `amounts` from a position as one unstake.
pub fn batch_unstake(
    state: &mut GlobalState,
    user: &mut UserStake,
    amounts: Vec<u64>,
    now: i64,
) -> (r: Result<Withdrawal, CustomError>)
    ensures
        total_of(amounts@) > u64::MAX ==> r == Err::<Withdrawal, CustomError>(
            CustomError::MathOverflow,
        ) && *final(state) == *old(state) && *final(user) == *old(user),
        total_of(amounts@) <= u64::MAX ==> match unstake_refusal(
            *old(state),
            *old(user),
            total_of(amounts@) as u64,
            now,
        ) {
            Some(e) => r == Err::<Withdrawal, CustomError>(e) && *final(state) == *old(state)
                && *final(user) == *old(user),
            None => r == Ok::<Withdrawal, CustomError>(
                withdrawal_spec(*old(state), *old(user), total_of(amounts@) as u64, now),
            ) && *final(state) == state_after_unstake(
                *old(state),
                *old(user),
                total_of(amounts@) as u64,
                now,
            ) && *final(user) == position_after_unstake(
                *old(state),
                *old(user),
                total_of(amounts@) as u64,
                now,
            ),
        },
        final(state).acc_reward_per_share == old(state).acc_reward_per_share,
{
    proof {
        lemma_total_of_nonnegative(amounts@);
    }
    let total = sum_amounts(&amounts)?;
    unstake(state, user, total, now)
}

/// The tier table a new pool starts with.
pub open spec fn initial_pool(tier: int) -> PoolInfo {
    if tier == 0 {
        PoolInfo { lockup_period: 604_800, apr_multiplier: 100, transaction_fee: 50 }
    } else if tier == 1 {
        PoolInfo { lockup_period: 1_209_600, apr_multiplier: 110, transaction_fee: 75 }
    } else {
        PoolInfo { lockup_period: 2_592_000, apr_multiplier: 120, transaction_fee: 100 }
    }
}

/// Opens the global reward ledger: nothing staked, nothing accumulated, an
/// empty insurance fund, and the three tiers at their starting values.
pub fn initialize(
    token_mint: anchor_lang::prelude::Pubkey,
    owner: anchor_lang::prelude::Pubkey,
    governance: anchor_lang::prelude::Pubkey,
    cooldown_period: i64,
    early_withdrawal_penalty: u64,
    min_withdraw_interval: i64,
    min_claim_delay: i64,
    insurance_fee_percent: u64,
    utilization_multiplier: u64,
) -> (state: GlobalState)
    ensures
        state.total_staked == 0,
        state.acc_reward_per_share == 0,
        state.token_mint == token_mint,
        state.owner == owner,
        state.governance == governance,
        state.cooldown_period == cooldown_period,
        state.early_withdrawal_penalty == early_withdrawal_penalty,
        state.min_withdraw_interval == min_withdraw_interval,
        state.min_claim_delay == min_claim_delay,
        state.insurance_fee_percent == insurance_fee_percent,
        state.utilization_multiplier == utilization_multiplier,
        state.last_fee_deposit_time == 0,
        state.insurance_fund == 0,
        state.pool_info[0] == initial_pool(0),
        state.pool_info[1] == initial_pool(1),
        state.pool_info[2] == initial_pool(2),
{
    GlobalState {
        total_staked: 0,
        acc_reward_per_share: 0,
        token_mint,
        owner,
        governance,
        cooldown_period,
        early_withdrawal_penalty,
        min_withdraw_interval,
        min_claim_delay,
        insurance_fee_percent,
        utilization_multiplier,
        last_fee_deposit_time: 0,
        pool_info: [
            PoolInfo { lockup_period: 7 * SECONDS_IN_DAY, apr_multiplier: 100, transaction_fee: 50 },
            PoolInfo { lockup_period: 14 * SECONDS_IN_DAY, apr_multiplier: 110, transaction_fee: 75 },
            PoolInfo { lockup_period: 30 * SECONDS_IN_DAY, apr_multiplier: 120, transaction_fee: 100 },
        ],
        insurance_fund: 0,
    }
}

} // verus!
