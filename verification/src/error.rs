//! The failures an operation can report. A failed operation changes nothing.

use vstd::prelude::*;

verus! {

/// Why an operation was refused.
#[derive(Clone, Copy, Debug, PartialEq, Eq, Structural)]
pub enum CustomError {
    /// The tier index is not 0, 1 or 2.
    InvalidPoolType,
    /// An arithmetic step would lose information.
    MathOverflow,
    /// The amount to unstake exceeds the position's balance.
    InsufficientStake,
    /// Too little time has passed since the last withdrawal.
    WithdrawalTooFrequent,
    /// The anti-manipulation proof did not pass its check.
    InvalidMEVProof,
    /// The stake is younger than the cooldown period.
    StakePeriodTooShort,
    /// Too little time has passed since the last fee deposit.
    ClaimTooSoon,
    /// The claim would pay nothing.
    NoRewards,
}

impl CustomError {
    /// The text reported for each failure.
    pub open spec fn message_spec(self) -> Seq<char> {
        match self {
            CustomError::InvalidPoolType => "Invalid pool type."@,
            CustomError::MathOverflow => "Math overflow occurred."@,
            CustomError::InsufficientStake => "Insufficient staked amount."@,
            CustomError::WithdrawalTooFrequent => "Withdrawal attempts are too frequent."@,
            CustomError::InvalidMEVProof => "Invalid or missing MEV proof."@,
            CustomError::StakePeriodTooShort => "Stake period is too short for claiming rewards."@,
            CustomError::ClaimTooSoon => "Claim attempted too soon after a transaction fee deposit."@,
            CustomError::NoRewards => "No rewards available to claim."@,
        }
    }

    /// The text reported for this failure.
    pub fn message(&self) -> (text: &'static str)
        ensures
            text@ == self.message_spec(),
    {
        match self {
            CustomError::InvalidPoolType => "Invalid pool type.",
            CustomError::MathOverflow => "Math overflow occurred.",
            CustomError::InsufficientStake => "Insufficient staked amount.",
            CustomError::WithdrawalTooFrequent => "Withdrawal attempts are too frequent.",
            CustomError::InvalidMEVProof => "Invalid or missing MEV proof.",
            CustomError::StakePeriodTooShort => "Stake period is too short for claiming rewards.",
            CustomError::ClaimTooSoon => "Claim attempted too soon after a transaction fee deposit.",
            CustomError::NoRewards => "No rewards available to claim.",
        }
    }
}

} // verus!
