//! Reward arithmetic on a single position: lazy settlement against the
//! global accumulator, the reward-debt baseline, and the multipliers that a
//! claim applies.

use vstd::prelude::*;
use crate::error::CustomError;
use crate::math::{checked_add, elapsed_spec, mul_div, mul_div_spec, PERCENT, REWARD_MULTIPLIER};

verus! {

/// Seconds in one day.
pub const SECONDS_IN_DAY: i64 = 86_400;

/// Stake age, in seconds, from which a claim is paid at 120 percent.
pub const THIRTY_DAYS: i64 = 2_592_000;

/// Stake age, in seconds, from which a claim is paid at 150 percent.
pub const NINETY_DAYS: i64 = 7_776_000;

/// Reward accumulated since genesis by `staked` units at accumulator `acc`.
pub open spec fn accumulated(staked: u64, acc: u64) -> int {
    (staked as int * acc as int) / (REWARD_MULTIPLIER as int)
}

/// Reward a position has earned since its baseline was last taken.
pub open spec fn pending_owed(staked: u64, reward_debt: u64, acc: u64) -> int {
    accumulated(staked, acc) - reward_debt
}

/// The pending balance after settlement: the old balance plus what is owed.
/// A baseline ahead of the accumulator, or a balance beyond 64 bits, is an
/// overflow.
pub open spec fn settle_spec(
    staked: u64,
    reward_debt: u64,
    pending: u64,
    acc: u64,
) -> Result<u64, CustomError> {
    let owed = pending_owed(staked, reward_debt, acc);
    if 0 <= owed && pending + owed <= u64::MAX {
        Ok((pending + owed) as u64)
    } else {
        Err(CustomError::MathOverflow)
    }
}

/// The baseline of a position of `staked` units at accumulator `acc`.
pub open spec fn reward_debt_spec(staked: u64, acc: u64) -> Result<u64, CustomError> {
    mul_div_spec(staked, acc, REWARD_MULTIPLIER)
}

/// Folds what a position has earned since its baseline into its pending
/// balance and returns the new balance.
pub fn settle(
    staked: u64,
    reward_debt: u64,
    pending: u64,
    acc: u64,
) -> (r: Result<u64, CustomError>)
    ensures
        r == settle_spec(staked, reward_debt, pending, acc),
{
    proof {
        crate::math::lemma_product_fits(staked, acc);
    }
    let earned: u128 = (staked as u128) * (acc as u128) / (REWARD_MULTIPLIER as u128);
    if earned < reward_debt as u128 {
        return Err(CustomError::MathOverflow);
    }
    let owed: u128 = earned - reward_debt as u128;
    if owed > u64::MAX as u128 {
        return Err(CustomError::MathOverflow);
    }
    checked_add(pending, owed as u64)
}

/// Computes the baseline of a position of `staked` units.
pub fn reward_debt(staked: u64, acc: u64) -> (r: Result<u64, CustomError>)
    ensures
        r == reward_debt_spec(staked, acc),
{
    mul_div(staked, acc, REWARD_MULTIPLIER)
}

/// Once a position's baseline is current, settling it again adds nothing.
pub proof fn lemma_settlement_idempotent(staked: u64, reward_debt: u64, pending: u64, acc: u64)
    requires
        settle_spec(staked, reward_debt, pending, acc) is Ok,
        reward_debt_spec(staked, acc) is Ok,
    ensures
        ({
            let settled = settle_spec(staked, reward_debt, pending, acc).unwrap();
            let baseline = reward_debt_spec(staked, acc).unwrap();
            &&& pending_owed(staked, baseline, acc) == 0
            &&& settle_spec(staked, baseline, settled, acc) == Ok::<u64, CustomError>(settled)
        }),
{
}

/// Percentage a claim is paid at for a stake of the given age in seconds:
/// 100 below thirty days, 120 from thirty days, 150 from ninety days.
pub open spec fn time_multiplier_spec(staked_duration: int) -> u64 {
    if staked_duration < THIRTY_DAYS {
        100
    } else if staked_duration < NINETY_DAYS {
        120
    } else {
        150
    }
}

/// Percentage a claim is paid at for a stake of the given age in seconds.
pub fn time_multiplier(staked_duration: i128) -> (r: u64)
    ensures
        r == time_multiplier_spec(staked_duration as int),
{
    if staked_duration < THIRTY_DAYS as i128 {
        100
    } else if staked_duration < NINETY_DAYS as i128 {
        120
    } else {
        150
    }
}

/// Bonus, in percent, earned by a trailing trade volume: nothing up to
/// 10,000, then 5 up to 100,000, then 10 up to 1,000,000, and 15 beyond.
/// Both products use this table.
pub open spec fn rebate_spec(trade_volume: u64) -> u64 {
    if trade_volume <= 10_000 {
        0
    } else if trade_volume <= 100_000 {
        5
    } else if trade_volume <= 1_000_000 {
        10
    } else {
        15
    }
}

/// Bonus, in percent, earned by a trailing trade volume.
pub fn calculate_rebate(trade_volume: u64) -> (r: u64)
    ensures
        r == rebate_spec(trade_volume),
{
    if trade_volume <= 10_000 {
        0
    } else if trade_volume <= 100_000 {
        5
    } else if trade_volume <= 1_000_000 {
        10
    } else {
        15
    }
}

/// `amount` at `percent` percent, rounded down.
pub open spec fn percent_spec(amount: u64, percent: u64) -> Result<u64, CustomError> {
    mul_div_spec(amount, percent, PERCENT)
}

/// Pays `amount` at `percent` percent, rounded down.
pub fn apply_percent(amount: u64, percent: u64) -> (r: Result<u64, CustomError>)
    ensures
        r == percent_spec(amount, percent),
{
    mul_div(amount, percent, PERCENT)
}

/// What a claim pays for a settled balance, for a position of either
/// product: the balance at the time multiplier, then at the utilization
/// multiplier, then with the volume bonus, each step rounded down and kept
/// within 64 bits.
pub open spec fn claim_reward_spec(
    settled: u64,
    staked_duration: int,
    utilization_multiplier: u64,
    trade_volume: u64,
) -> Result<u64, CustomError> {
    match percent_spec(settled, time_multiplier_spec(staked_duration)) {
        Err(e) => Err(e),
        Ok(timed) => match percent_spec(timed, utilization_multiplier) {
            Err(e) => Err(e),
            Ok(utilized) => percent_spec(utilized, (100 + rebate_spec(trade_volume)) as u64),
        },
    }
}

/// Applies the three claim multipliers in their order.
pub fn claim_reward(
    settled: u64,
    staked_duration: i128,
    utilization_multiplier: u64,
    trade_volume: u64,
) -> (r: Result<u64, CustomError>)
    ensures
        r == claim_reward_spec(
            settled,
            staked_duration as int,
            utilization_multiplier,
            trade_volume,
        ),
{
    let timed = apply_percent(settled, time_multiplier(staked_duration))?;
    let utilized = apply_percent(timed, utilization_multiplier)?;
    apply_percent(utilized, 100 + calculate_rebate(trade_volume))
}

/// Why a claim is refused before any reward is computed, if it is: a failed
/// proof check first, then a stake younger than the cooldown, then a fee
/// deposit more recent than the claim delay.
pub open spec fn claim_gate_spec(
    proof_ok: bool,
    now: i64,
    stake_timestamp: i64,
    cooldown_period: i64,
    last_fee_deposit_time: i64,
    min_claim_delay: i64,
) -> Option<CustomError> {
    if !proof_ok {
        Some(CustomError::InvalidMEVProof)
    } else if elapsed_spec(now, stake_timestamp) < cooldown_period {
        Some(CustomError::StakePeriodTooShort)
    } else if elapsed_spec(now, last_fee_deposit_time) < min_claim_delay {
        Some(CustomError::ClaimTooSoon)
    } else {
        None
    }
}

/// Checks the three gates of a claim.
pub fn claim_gate(
    proof_ok: bool,
    now: i64,
    stake_timestamp: i64,
    cooldown_period: i64,
    last_fee_deposit_time: i64,
    min_claim_delay: i64,
) -> (r: Result<(), CustomError>)
    ensures
        r == match claim_gate_spec(
            proof_ok,
            now,
            stake_timestamp,
            cooldown_period,
            last_fee_deposit_time,
            min_claim_delay,
        ) {
            None => Ok::<(), CustomError>(()),
            Some(e) => Err(e),
        },
{
    if !proof_ok {
        Err(CustomError::InvalidMEVProof)
    } else if crate::math::elapsed(now, stake_timestamp) < cooldown_period as i128 {
        Err(CustomError::StakePeriodTooShort)
    } else if crate::math::elapsed(now, last_fee_deposit_time) < min_claim_delay as i128 {
        Err(CustomError::ClaimTooSoon)
    } else {
        Ok(())
    }
}

} // verus!
