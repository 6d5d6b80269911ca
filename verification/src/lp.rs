//! The operations on a liquidity-provider position. They follow the base
//! product, with two differences: there are no tiers and no lockup penalty,
//! and the staked value is not part of the ledger's base total. A claim is
//! gated, settled and paid exactly as a base position's claim is.

use vstd::prelude::*;
use crate::error::CustomError;
use crate::math::{checked_add, checked_sub, elapsed, elapsed_spec};
use crate::rewards::{
    accumulated, claim_gate, claim_gate_spec, claim_reward, claim_reward_spec, pending_owed,
    reward_debt, settle, settle_spec,
};
use crate::staking::verify_mev_proof;
use crate::state::{GlobalState, LPUserStake};

verus! {

/// Whether a liquidity-provider stake is permitted: the position settles,
/// and its new balance and baseline fit in 64 bits.
pub open spec fn lp_stake_permitted(state: GlobalState, lp_user: LPUserStake, amount: u64) -> bool {
    &&& settle_spec(
        lp_user.staked_amount,
        lp_user.reward_debt,
        lp_user.pending_rewards,
        state.acc_reward_per_share,
    ) is Ok
    &&& lp_user.staked_amount + amount <= u64::MAX
    &&& accumulated((lp_user.staked_amount + amount) as u64, state.acc_reward_per_share)
        <= u64::MAX
}

/// The position after a permitted stake of `amount` at `now`.
pub open spec fn lp_position_after_stake(
    state: GlobalState,
    lp_user: LPUserStake,
    amount: u64,
    now: i64,
) -> LPUserStake {
    LPUserStake {
        staked_amount: (lp_user.staked_amount + amount) as u64,
        reward_debt: accumulated(
            (lp_user.staked_amount + amount) as u64,
            state.acc_reward_per_share,
        ) as u64,
        pending_rewards: settle_spec(
            lp_user.staked_amount,
            lp_user.reward_debt,
            lp_user.pending_rewards,
            state.acc_reward_per_share,
        ).unwrap(),
        stake_timestamp: now,
        last_withdrawal_time: now,
        ..lp_user
    }
}

/// Stakes `amount` of liquidity-provider tokens. The position is settled
/// first, and its clocks restart.
pub fn lp_stake(
    state: &GlobalState,
    lp_user: &mut LPUserStake,
    amount: u64,
    now: i64,
) -> (r: Result<(), CustomError>)
    ensures
        lp_stake_permitted(*state, *old(lp_user), amount) ==> r is Ok && *final(lp_user)
            == lp_position_after_stake(*state, *old(lp_user), amount, now),
        !lp_stake_permitted(*state, *old(lp_user), amount) ==> r == Err::<(), CustomError>(
            CustomError::MathOverflow,
        ) && *final(lp_user) == *old(lp_user),
        r is Ok ==> pending_owed(
            final(lp_user).staked_amount,
            final(lp_user).reward_debt,
            state.acc_reward_per_share,
        ) == 0,
{
    let pending = settle(
        lp_user.staked_amount,
        lp_user.reward_debt,
        lp_user.pending_rewards,
        state.acc_reward_per_share,
    )?;
    let staked = checked_add(lp_user.staked_amount, amount)?;
    let debt = reward_debt(staked, state.acc_reward_per_share)?;
    lp_user.pending_rewards = pending;
    lp_user.staked_amount = staked;
    lp_user.reward_debt = debt;
    lp_user.stake_timestamp = now;
    lp_user.last_withdrawal_time = now;
    Ok(())
}

/// Why a liquidity-provider unstake is refused, if it is.
pub open spec fn lp_unstake_refusal(
    state: GlobalState,
    lp_user: LPUserStake,
    amount: u64,
    now: i64,
) -> Option<CustomError> {
    if lp_user.staked_amount < amount {
        Some(CustomError::InsufficientStake)
    } else if elapsed_spec(now, lp_user.last_withdrawal_time) < state.min_withdraw_interval {
        Some(CustomError::WithdrawalTooFrequent)
    } else if settle_spec(
        lp_user.staked_amount,
        lp_user.reward_debt,
        lp_user.pending_rewards,
        state.acc_reward_per_share,
    ) is Err || accumulated(
        (lp_user.staked_amount - amount) as u64,
        state.acc_reward_per_share,
    ) > u64::MAX {
        Some(CustomError::MathOverflow)
    } else {
        None
    }
}

/// The position after a permitted unstake of `amount` at `now`.
pub open spec fn lp_position_after_unstake(
    state: GlobalState,
    lp_user: LPUserStake,
    amount: u64,
    now: i64,
) -> LPUserStake {
    LPUserStake {
        staked_amount: (lp_user.staked_amount - amount) as u64,
        reward_debt: accumulated(
            (lp_user.staked_amount - amount) as u64,
            state.acc_reward_per_share,
        ) as u64,
        pending_rewards: settle_spec(
            lp_user.staked_amount,
            lp_user.reward_debt,
            lp_user.pending_rewards,
            state.acc_reward_per_share,
        ).unwrap(),
        last_withdrawal_time: now,
        ..lp_user
    }
}

/// Withdraws `amount` of liquidity-provider tokens; the whole amount is paid
/// out. The position is settled first.
pub fn lp_unstake(
    state: &GlobalState,
    lp_user: &mut LPUserStake,
    amount: u64,
    now: i64,
) -> (r: Result<(), CustomError>)
    ensures
        match lp_unstake_refusal(*state, *old(lp_user), amount, now) {
            Some(e) => r == Err::<(), CustomError>(e) && *final(lp_user) == *old(lp_user),
            None => r is Ok && *final(lp_user) == lp_position_after_unstake(
                *state,
                *old(lp_user),
                amount,
                now,
            ),
        },
        r is Ok ==> pending_owed(
            final(lp_user).staked_amount,
            final(lp_user).reward_debt,
            state.acc_reward_per_share,
        ) == 0,
{
    if lp_user.staked_amount < amount {
        return Err(CustomError::InsufficientStake);
    }
    if elapsed(now, lp_user.last_withdrawal_time) < state.min_withdraw_interval as i128 {
        return Err(CustomError::WithdrawalTooFrequent);
    }
    let pending = settle(
        lp_user.staked_amount,
        lp_user.reward_debt,
        lp_user.pending_rewards,
        state.acc_reward_per_share,
    )?;
    let staked = checked_sub(lp_user.staked_amount, amount)?;
    let debt = reward_debt(staked, state.acc_reward_per_share)?;
    lp_user.pending_rewards = pending;
    lp_user.staked_amount = staked;
    lp_user.reward_debt = debt;
    lp_user.last_withdrawal_time = now;
    Ok(())
}

/// What a liquidity-provider claim pays, or why it is refused: the gates,
/// then settlement, then the multipliers; a reward of zero is refused, and
/// so is a baseline that no longer fits in 64 bits.
pub open spec fn lp_claim_outcome(
    state: GlobalState,
    lp_user: LPUserStake,
    proof_ok: bool,
    now: i64,
) -> Result<u64, CustomError> {
    match claim_gate_spec(
        proof_ok,
        now,
        lp_user.stake_timestamp,
        state.cooldown_period,
        state.last_fee_deposit_time,
        state.min_claim_delay,
    ) {
        Some(e) => Err(e),
        None => match settle_spec(
            lp_user.staked_amount,
            lp_user.reward_debt,
            lp_user.pending_rewards,
            state.acc_reward_per_share,
        ) {
            Err(e) => Err(e),
            Ok(settled) => match claim_reward_spec(
                settled,
                elapsed_spec(now, lp_user.stake_timestamp),
                state.utilization_multiplier,
                lp_user.trade_volume_7d,
            ) {
                Err(e) => Err(e),
                Ok(reward) => if reward == 0 {
                    Err(CustomError::NoRewards)
                } else if accumulated(lp_user.staked_amount, state.acc_reward_per_share)
                    > u64::MAX {
                    Err(CustomError::MathOverflow)
                } else {
                    Ok(reward)
                },
            },
        },
    }
}

/// The position after a permitted claim: nothing pending, baseline current.
pub open spec fn lp_position_after_claim(state: GlobalState, lp_user: LPUserStake) -> LPUserStake {
    LPUserStake {
        pending_rewards: 0,
        reward_debt: accumulated(lp_user.staked_amount, state.acc_reward_per_share) as u64,
        ..lp_user
    }
}

/// Claims a liquidity-provider position's rewards, given the verdict of the
/// proof check, and returns the amount to pay out of the reward pool.
pub fn lp_claim(
    state: &GlobalState,
    lp_user: &mut LPUserStake,
    proof_ok: bool,
    now: i64,
) -> (r: Result<u64, CustomError>)
    ensures
        r == lp_claim_outcome(*state, *old(lp_user), proof_ok, now),
        r is Ok ==> *final(lp_user) == lp_position_after_claim(*state, *old(lp_user)),
        r is Err ==> *final(lp_user) == *old(lp_user),
        r is Ok ==> pending_owed(
            final(lp_user).staked_amount,
            final(lp_user).reward_debt,
            state.acc_reward_per_share,
        ) == 0,
{
    claim_gate(
        proof_ok,
        now,
        lp_user.stake_timestamp,
        state.cooldown_period,
        state.last_fee_deposit_time,
        state.min_claim_delay,
    )?;
    let settled = settle(
        lp_user.staked_amount,
        lp_user.reward_debt,
        lp_user.pending_rewards,
        state.acc_reward_per_share,
    )?;
    let reward = claim_reward(
        settled,
        elapsed(now, lp_user.stake_timestamp),
        state.utilization_multiplier,
        lp_user.trade_volume_7d,
    )?;
    if reward == 0 {
        return Err(CustomError::NoRewards);
    }
    let debt = reward_debt(lp_user.staked_amount, state.acc_reward_per_share)?;
    lp_user.pending_rewards = 0;
    lp_user.reward_debt = debt;
    Ok(reward)
}

/// Claims a liquidity-provider position's rewards against the given proof
/// and returns the amount to pay out of the reward pool.
pub fn lp_claim_rewards(
    state: &GlobalState,
    lp_user: &mut LPUserStake,
    proof: String,
    now: i64,
) -> (r: Result<u64, CustomError>)
    ensures
        r == lp_claim_outcome(*state, *old(lp_user), proof@.len() > 0, now),
        r is Ok ==> *final(lp_user) == lp_position_after_claim(*state, *old(lp_user)),
        r is Err ==> *final(lp_user) == *old(lp_user),
        r is Ok ==> pending_owed(
            final(lp_user).staked_amount,
            final(lp_user).reward_debt,
            state.acc_reward_per_share,
        ) == 0,
{
    let proof_ok = verify_mev_proof(proof.as_str());
    lp_claim(state, lp_user, proof_ok, now)
}

} // verus!
