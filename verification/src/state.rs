//! The ledger records: the global reward ledger, the per-participant
//! positions of both products, the tier table and governance proposals.

use vstd::prelude::*;

verus! {

/// `anchor_lang::prelude::Pubkey`, an account address. The ledger stores
/// addresses and hands them back; it never looks inside one, so nothing is
/// claimed of what an address holds.
#[verifier::external_type_specification]
#[verifier::external_body]
pub struct ExPubkey(anchor_lang::prelude::Pubkey);

/// `Pubkey`'s `Clone::clone`: an address is plain copyable data, and its
/// clone is the address itself.
pub assume_specification[ <anchor_lang::prelude::Pubkey as Clone>::clone ](
    key: &anchor_lang::prelude::Pubkey,
) -> (copy: anchor_lang::prelude::Pubkey)
    ensures
        copy == *key,
;

/// Number of tiers.
pub const POOL_COUNT: u8 = 3;

/// One tier's configuration.
#[derive(Clone, Copy, Debug, PartialEq, Eq)]
pub struct PoolInfo {
    /// Seconds a stake must age before it can leave without penalty.
    pub lockup_period: i64,
    /// Informational yield weight, in percent.
    pub apr_multiplier: u64,
    /// Tier fee, in basis points.
    pub transaction_fee: u64,
}

impl Default for PoolInfo {
    /// A tier without lockup, weight or fee.
    fn default() -> (pool: Self)
        ensures
            pool == (PoolInfo { lockup_period: 0, apr_multiplier: 0, transaction_fee: 0 }),
    {
        PoolInfo { lockup_period: 0, apr_multiplier: 0, transaction_fee: 0 }
    }
}

/// The global reward ledger.
#[derive(Clone, Debug, PartialEq, Eq)]
pub struct GlobalState {
    /// Sum of the staked amounts of all open base positions.
    pub total_staked: u64,
    /// Cumulative reward per unit staked, scaled by `REWARD_MULTIPLIER`.
    pub acc_reward_per_share: u64,
    /// The token this pool stakes and pays.
    pub token_mint: anchor_lang::prelude::Pubkey,
    /// Who created the pool.
    pub owner: anchor_lang::prelude::Pubkey,
    /// Who may change the parameters.
    pub governance: anchor_lang::prelude::Pubkey,
    /// Minimum age of a stake, in seconds, before it can claim.
    pub cooldown_period: i64,
    /// Rate withheld from an early withdrawal, in basis points.
    pub early_withdrawal_penalty: u64,
    /// Minimum seconds between two withdrawals of one position.
    pub min_withdraw_interval: i64,
    /// Minimum seconds between a fee deposit and a claim.
    pub min_claim_delay: i64,
    /// Share of each fee deposit skimmed for insurance, in basis points.
    pub insurance_fee_percent: u64,
    /// Percentage applied to every claim; 100 is neutral.
    pub utilization_multiplier: u64,
    /// When the last fee deposit was made.
    pub last_fee_deposit_time: i64,
    /// The tier table, indexed by tier.
    pub pool_info: [PoolInfo; 3],
    /// Value skimmed from fee deposits and withheld as penalties.
    pub insurance_fund: u64,
}

/// A participant's base staking position.
#[derive(Clone, Copy, Debug, PartialEq, Eq)]
pub struct UserStake {
    /// Value currently staked.
    pub staked_amount: u64,
    /// Accumulated reward already priced into this position.
    pub reward_debt: u64,
    /// Settled reward not yet claimed.
    pub pending_rewards: u64,
    /// When the position was last staked into or compounded.
    pub stake_timestamp: i64,
    /// When the position last staked or withdrew.
    pub last_withdrawal_time: i64,
    /// The tier the position is enrolled in.
    pub pool_type: u8,
    /// Trailing seven-day trade volume, supplied from outside.
    pub trade_volume_7d: u64,
}

impl UserStake {
    /// The position is enrolled in one of the tiers.
    pub open spec fn well_formed(self) -> bool {
        self.pool_type < POOL_COUNT
    }
}

impl Default for UserStake {
    /// A position before its first stake: every field zero.
    fn default() -> (position: Self)
        ensures
            position == (UserStake {
                staked_amount: 0,
                reward_debt: 0,
                pending_rewards: 0,
                stake_timestamp: 0,
                last_withdrawal_time: 0,
                pool_type: 0,
                trade_volume_7d: 0,
            }),
            position.well_formed(),
    {
        UserStake {
            staked_amount: 0,
            reward_debt: 0,
            pending_rewards: 0,
            stake_timestamp: 0,
            last_withdrawal_time: 0,
            pool_type: 0,
            trade_volume_7d: 0,
        }
    }
}

/// A participant's liquidity-provider staking position.
#[derive(Clone, Copy, Debug, PartialEq, Eq)]
pub struct LPUserStake {
    /// Value currently staked.
    pub staked_amount: u64,
    /// Accumulated reward already priced into this position.
    pub reward_debt: u64,
    /// Settled reward not yet claimed.
    pub pending_rewards: u64,
    /// When the position was last staked into.
    pub stake_timestamp: i64,
    /// When the position last staked or withdrew.
    pub last_withdrawal_time: i64,
    /// Trailing seven-day trade volume, supplied from outside.
    pub trade_volume_7d: u64,
}

impl Default for LPUserStake {
    /// A position before its first stake: every field zero.
    fn default() -> (position: Self)
        ensures
            position == (LPUserStake {
                staked_amount: 0,
                reward_debt: 0,
                pending_rewards: 0,
                stake_timestamp: 0,
                last_withdrawal_time: 0,
                trade_volume_7d: 0,
            }),
    {
        LPUserStake {
            staked_amount: 0,
            reward_debt: 0,
            pending_rewards: 0,
            stake_timestamp: 0,
            last_withdrawal_time: 0,
            trade_volume_7d: 0,
        }
    }
}

/// A governance proposal.
#[derive(Clone, Debug, PartialEq, Eq)]
pub struct Proposal {
    /// The proposal's number.
    pub proposal_id: u64,
    /// Who submitted it.
    pub proposer: anchor_lang::prelude::Pubkey,
    /// What is proposed; the ledger does not interpret it.
    pub proposal_data: String,
    /// When it was submitted.
    pub snapshot_timestamp: i64,
    /// Stake weight voted so far.
    pub vote_count: u64,
    /// Whether it has been carried out.
    pub executed: bool,
}

} // verus!
