use perpetual_yield_token::error::CustomError;
use perpetual_yield_token::state::{LPUserStake, PoolInfo, UserStake, POOL_COUNT};

#[test]
fn a_default_position_is_all_zero() {
    assert_eq!(
        UserStake::default(),
        UserStake {
            staked_amount: 0,
            reward_debt: 0,
            pending_rewards: 0,
            stake_timestamp: 0,
            last_withdrawal_time: 0,
            pool_type: 0,
            trade_volume_7d: 0,
        }
    );
    assert_eq!(
        LPUserStake::default(),
        LPUserStake {
            staked_amount: 0,
            reward_debt: 0,
            pending_rewards: 0,
            stake_timestamp: 0,
            last_withdrawal_time: 0,
            trade_volume_7d: 0,
        }
    );
}

#[test]
fn a_default_tier_is_all_zero() {
    assert_eq!(
        PoolInfo::default(),
        PoolInfo { lockup_period: 0, apr_multiplier: 0, transaction_fee: 0 }
    );
    assert_eq!(POOL_COUNT, 3);
}

#[test]
fn every_failure_has_its_message() {
    assert_eq!(CustomError::InvalidPoolType.message(), "Invalid pool type.");
    assert_eq!(CustomError::MathOverflow.message(), "Math overflow occurred.");
    assert_eq!(CustomError::InsufficientStake.message(), "Insufficient staked amount.");
    assert_eq!(
        CustomError::WithdrawalTooFrequent.message(),
        "Withdrawal attempts are too frequent."
    );
    assert_eq!(CustomError::InvalidMEVProof.message(), "Invalid or missing MEV proof.");
    assert_eq!(
        CustomError::StakePeriodTooShort.message(),
        "Stake period is too short for claiming rewards."
    );
    assert_eq!(
        CustomError::ClaimTooSoon.message(),
        "Claim attempted too soon after a transaction fee deposit."
    );
    assert_eq!(CustomError::NoRewards.message(), "No rewards available to claim.");
}
