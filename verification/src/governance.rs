//! Governance: parameter updates by the governance address, and proposals
//! that collect stake-weighted votes.

use vstd::prelude::*;
use crate::error::CustomError;
use crate::math::checked_add;
use crate::state::{GlobalState, PoolInfo, Proposal, UserStake};

verus! {

/// `Pubkey`'s `PartialEq::eq`, which is derived over the address's bytes:
/// true exactly when the two addresses are the same.
#[verifier::external_body]
fn same_key(a: &anchor_lang::prelude::Pubkey, b: &anchor_lang::prelude::Pubkey) -> (same: bool)
    ensures
        same == (*a == *b),
{
    a == b
}

/// Whether `key` is the address that may change the pool's parameters.
pub fn is_governance(state: &GlobalState, key: &anchor_lang::prelude::Pubkey) -> (r: bool)
    ensures
        r == (*key == state.governance),
{
    same_key(key, &state.governance)
}

/// Replaces the timing gates, the rates, the utilization multiplier and the
/// tier table. The values are taken as given; only the governance address
/// may call this.
pub fn update_parameters(
    state: &mut GlobalState,
    authority: &anchor_lang::prelude::Pubkey,
    cooldown_period: i64,
    early_withdrawal_penalty: u64,
    min_withdraw_interval: i64,
    min_claim_delay: i64,
    insurance_fee_percent: u64,
    utilization_multiplier: u64,
    pool_info: [PoolInfo; 3],
)
    requires
        *authority == old(state).governance,
    ensures
        *final(state) == (GlobalState {
            cooldown_period,
            early_withdrawal_penalty,
            min_withdraw_interval,
            min_claim_delay,
            insurance_fee_percent,
            utilization_multiplier,
            pool_info,
            ..*old(state)
        }),
        final(state).acc_reward_per_share == old(state).acc_reward_per_share,
{
    state.cooldown_period = cooldown_period;
    state.early_withdrawal_penalty = early_withdrawal_penalty;
    state.min_withdraw_interval = min_withdraw_interval;
    state.min_claim_delay = min_claim_delay;
    state.insurance_fee_percent = insurance_fee_percent;
    state.utilization_multiplier = utilization_multiplier;
    state.pool_info = pool_info;
}

/// Replaces the utilization multiplier. Only the governance address may call
/// this.
pub fn update_utilization(
    state: &mut GlobalState,
    authority: &anchor_lang::prelude::Pubkey,
    utilization_multiplier: u64,
)
    requires
        *authority == old(state).governance,
    ensures
        *final(state) == (GlobalState { utilization_multiplier, ..*old(state) }),
        final(state).acc_reward_per_share == old(state).acc_reward_per_share,
{
    state.utilization_multiplier = utilization_multiplier;
}

/// Opens a proposal with no votes.
pub fn submit_proposal(
    proposal_id: u64,
    proposer: anchor_lang::prelude::Pubkey,
    proposal_data: String,
    now: i64,
) -> (proposal: Proposal)
    ensures
        proposal == (Proposal {
            proposal_id,
            proposer,
            proposal_data,
            snapshot_timestamp: now,
            vote_count: 0,
            executed: false,
        }),
{
    Proposal {
        proposal_id,
        proposer,
        proposal_data,
        snapshot_timestamp: now,
        vote_count: 0,
        executed: false,
    }
}

/// Adds the voter's current stake to an open proposal's vote count. The
/// weight is read at the time of the vote; nothing here keeps one position
/// from voting twice.
pub fn vote_proposal(proposal: &mut Proposal, voter: &UserStake) -> (r: Result<(), CustomError>)
    requires
        !old(proposal).executed,
    ensures
        old(proposal).vote_count + voter.staked_amount <= u64::MAX ==> r is Ok && *final(proposal)
            == (Proposal {
            vote_count: (old(proposal).vote_count + voter.staked_amount) as u64,
            ..*old(proposal)
        }),
        old(proposal).vote_count + voter.staked_amount > u64::MAX ==> r == Err::<(), CustomError>(
            CustomError::MathOverflow,
        ) && *final(proposal) == *old(proposal),
        final(proposal).vote_count >= old(proposal).vote_count,
{
    let votes = checked_add(proposal.vote_count, voter.staked_amount)?;
    proposal.vote_count = votes;
    Ok(())
}

} // verus!
