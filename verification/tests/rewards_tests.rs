use perpetual_yield_token::error::CustomError;
use perpetual_yield_token::math::{checked_add, checked_sub, elapsed, mul_div};
use perpetual_yield_token::rewards::{
    apply_percent, calculate_rebate, claim_gate, claim_reward, reward_debt, settle,
    time_multiplier, NINETY_DAYS, SECONDS_IN_DAY, THIRTY_DAYS,
};

#[test]
fn mul_div_truncates() {
    assert_eq!(mul_div(7, 3, 2), Ok(10));
    assert_eq!(mul_div(1_000, 500, 10_000), Ok(50));
    assert_eq!(mul_div(999, 1, 1_000), Ok(0));
    assert_eq!(mul_div(0, u64::MAX, 1), Ok(0));
}

#[test]
fn mul_div_uses_a_wide_intermediate() {
    assert_eq!(mul_div(u64::MAX, 1_000_000_000, 1_000_000_000), Ok(u64::MAX));
    assert_eq!(mul_div(u64::MAX, u64::MAX, u64::MAX), Ok(u64::MAX));
}

#[test]
fn mul_div_reports_a_quotient_beyond_64_bits() {
    assert_eq!(mul_div(u64::MAX, 2, 1), Err(CustomError::MathOverflow));
    assert_eq!(mul_div(u64::MAX, u64::MAX, 1), Err(CustomError::MathOverflow));
    assert_eq!(mul_div(1 << 63, 2, 1), Err(CustomError::MathOverflow));
}

#[test]
fn checked_add_and_sub_refuse_to_wrap() {
    assert_eq!(checked_add(1, 2), Ok(3));
    assert_eq!(checked_add(u64::MAX, 0), Ok(u64::MAX));
    assert_eq!(checked_add(u64::MAX, 1), Err(CustomError::MathOverflow));
    assert_eq!(checked_sub(5, 5), Ok(0));
    assert_eq!(checked_sub(5, 3), Ok(2));
    assert_eq!(checked_sub(3, 5), Err(CustomError::MathOverflow));
}

#[test]
fn elapsed_is_exact_at_the_extremes() {
    assert_eq!(elapsed(10, 3), 7);
    assert_eq!(elapsed(3, 10), -7);
    assert_eq!(elapsed(i64::MAX, i64::MIN), (1i128 << 64) - 1);
    assert_eq!(elapsed(i64::MIN, i64::MAX), 1 - (1i128 << 64));
}

#[test]
fn settle_adds_what_is_owed() {
    // 1000 * 2.5 - 1500 = 1000 owed
    assert_eq!(settle(1_000, 1_500, 40, 2_500_000_000), Ok(1_040));
    assert_eq!(settle(3, 0, 0, 333_333_333), Ok(0));
    assert_eq!(settle(3, 0, 0, 333_333_334), Ok(1));
    assert_eq!(settle(0, 0, 9, u64::MAX), Ok(9));
}

#[test]
fn settle_twice_adds_nothing_the_second_time() {
    let acc = 7_777_777_777;
    let staked = 12_345;
    let pending = settle(staked, 100, 5, acc).unwrap();
    let debt = reward_debt(staked, acc).unwrap();
    assert_eq!(pending, 5 + 96_016 - 100);
    assert_eq!(debt, 96_016);
    assert_eq!(settle(staked, debt, pending, acc), Ok(pending));
}

#[test]
fn settle_fails_fast_when_the_baseline_is_ahead() {
    assert_eq!(settle(1_000, 1_001, 0, 1_000_000_000), Err(CustomError::MathOverflow));
    assert_eq!(settle(0, 1, 0, 0), Err(CustomError::MathOverflow));
}

#[test]
fn settle_fails_when_the_balance_leaves_64_bits() {
    assert_eq!(settle(1_000, 0, u64::MAX - 999, 1_000_000_000), Err(CustomError::MathOverflow));
    assert_eq!(settle(1_000, 0, u64::MAX - 1_000, 1_000_000_000), Ok(u64::MAX));
    assert_eq!(settle(u64::MAX, 0, 0, u64::MAX), Err(CustomError::MathOverflow));
}

#[test]
fn settle_does_not_truncate_what_is_owed() {
    // The owed amount is 2^64 + 5: beyond 64 bits, so settlement fails
    // instead of adding 5.
    let staked = 1u64 << 63;
    let acc = 2_000_000_000 + 11;
    let earned = (staked as u128) * (acc as u128) / 1_000_000_000;
    assert!(earned > u64::MAX as u128);
    assert_eq!(settle(staked, 0, 0, acc), Err(CustomError::MathOverflow));
}

#[test]
fn reward_debt_is_the_scaled_product() {
    assert_eq!(reward_debt(4_000, 500_000_000), Ok(2_000));
    assert_eq!(reward_debt(1, 999_999_999), Ok(0));
    assert_eq!(reward_debt(u64::MAX, 1_000_000_000), Ok(u64::MAX));
    assert_eq!(reward_debt(u64::MAX, 1_000_000_001), Err(CustomError::MathOverflow));
}

#[test]
fn time_multiplier_steps_at_thirty_and_ninety_days() {
    assert_eq!(SECONDS_IN_DAY, 86_400);
    assert_eq!(THIRTY_DAYS, 30 * 86_400);
    assert_eq!(NINETY_DAYS, 90 * 86_400);
    assert_eq!(time_multiplier(-5), 100);
    assert_eq!(time_multiplier(0), 100);
    assert_eq!(time_multiplier(THIRTY_DAYS as i128 - 1), 100);
    assert_eq!(time_multiplier(THIRTY_DAYS as i128), 120);
    assert_eq!(time_multiplier(NINETY_DAYS as i128 - 1), 120);
    assert_eq!(time_multiplier(NINETY_DAYS as i128), 150);
    assert_eq!(time_multiplier(i128::MAX), 150);
}

#[test]
fn rebate_steps_with_the_volume() {
    assert_eq!(calculate_rebate(0), 0);
    assert_eq!(calculate_rebate(10_000), 0);
    assert_eq!(calculate_rebate(10_001), 5);
    assert_eq!(calculate_rebate(100_000), 5);
    assert_eq!(calculate_rebate(100_001), 10);
    assert_eq!(calculate_rebate(1_000_000), 10);
    assert_eq!(calculate_rebate(1_000_001), 15);
    assert_eq!(calculate_rebate(u64::MAX), 15);
}

#[test]
fn apply_percent_rounds_down() {
    assert_eq!(apply_percent(1_000, 150), Ok(1_500));
    assert_eq!(apply_percent(1, 150), Ok(1));
    assert_eq!(apply_percent(3, 33), Ok(0));
    assert_eq!(apply_percent(u64::MAX, 100), Ok(u64::MAX));
    assert_eq!(apply_percent(u64::MAX, 101), Err(CustomError::MathOverflow));
}

#[test]
fn claim_reward_matches_the_worked_example() {
    assert_eq!(claim_reward(1_000, 95 * 86_400, 110, 1_000_000), Ok(1_815));
    assert_eq!(claim_reward(1_000, 0, 100, 0), Ok(1_000));
    assert_eq!(claim_reward(1_000, 0, 0, 0), Ok(0));
    assert_eq!(claim_reward(1_000, 30 * 86_400, 100, 2_000_000), Ok(1_380));
}

#[test]
fn claim_reward_fails_on_an_intermediate_overflow() {
    // The second step would bring the amount back into range; the first
    // still fails.
    assert_eq!(claim_reward(u64::MAX, 90 * 86_400, 1, 0), Err(CustomError::MathOverflow));
    assert_eq!(claim_reward(u64::MAX, 0, 101, 0), Err(CustomError::MathOverflow));
    assert_eq!(claim_reward(u64::MAX, 0, 100, 10_001), Err(CustomError::MathOverflow));
}

#[test]
fn claim_gate_reports_the_first_failure() {
    assert_eq!(claim_gate(false, 0, 0, 10, 0, 10), Err(CustomError::InvalidMEVProof));
    assert_eq!(claim_gate(true, 9, 0, 10, 0, 10), Err(CustomError::StakePeriodTooShort));
    assert_eq!(claim_gate(true, 10, 0, 10, 1, 10), Err(CustomError::ClaimTooSoon));
    assert_eq!(claim_gate(true, 11, 0, 10, 1, 10), Ok(()));
    assert_eq!(claim_gate(true, i64::MIN, i64::MAX, 0, 0, 0), Err(CustomError::StakePeriodTooShort));
    assert_eq!(claim_gate(true, i64::MAX, i64::MIN, i64::MAX, i64::MIN, i64::MAX), Ok(()));
}
