//! A pool with its books: the ledger, every base position, and running
//! totals of the value that has entered and left the reward pool. Runs of
//! operations on the books are what the ledger's invariants speak of: the
//! accumulator never falls, and the ledger's total is the sum of the
//! positions' stakes.

use vstd::prelude::*;
use crate::staking::{
    claim_outcome, compound_outcome, deposit_permitted, early_penalty, position_after_claim,
    position_after_compound, position_after_stake, position_after_unstake, stake_refusal,
    state_after_compound, state_after_deposit, state_after_stake, state_after_unstake,
    unstake_refusal,
};
use crate::state::{GlobalState, UserStake};

verus! {

/// Sum of `f` over a list of positions.
pub open spec fn sum_over(positions: Seq<UserStake>, f: spec_fn(UserStake) -> int) -> int
    decreases positions.len(),
{
    if positions.len() == 0 {
        0
    } else {
        sum_over(positions.drop_last(), f) + f(positions.last())
    }
}

/// Value staked in all the positions.
pub open spec fn total_stake(positions: Seq<UserStake>) -> int {
    sum_over(positions, |p: UserStake| p.staked_amount as int)
}

/// Settled rewards waiting in all the positions.
pub open spec fn total_pending(positions: Seq<UserStake>) -> int {
    sum_over(positions, |p: UserStake| p.pending_rewards as int)
}

/// Sum of the baselines of all the positions.
pub open spec fn total_debt(positions: Seq<UserStake>) -> int {
    sum_over(positions, |p: UserStake| p.reward_debt as int)
}

/// Replacing one position changes a sum by the difference of its terms.
pub proof fn lemma_sum_over_update(
    positions: Seq<UserStake>,
    f: spec_fn(UserStake) -> int,
    i: int,
    p: UserStake,
)
    requires
        0 <= i < positions.len(),
    ensures
        sum_over(positions.update(i, p), f) == sum_over(positions, f) - f(positions[i]) + f(p),
    decreases positions.len(),
{
    let updated = positions.update(i, p);
    if i == positions.len() - 1 {
        assert(updated.drop_last() =~= positions.drop_last());
    } else {
        lemma_sum_over_update(positions.drop_last(), f, i, p);
        assert(updated.drop_last() =~= positions.drop_last().update(i, p));
    }
}

/// A pool together with its books: the ledger, every base position (open or
/// not yet staked into), the value that has entered the reward pool so far,
/// and the rewards paid out of it so far.
pub struct PoolBooks {
    pub state: GlobalState,
    pub positions: Seq<UserStake>,
    pub deposited: int,
    pub paid: int,
}

/// One operation of a run, on the position at an index where it has one.
pub enum PoolStep {
    Stake { position: int, amount: u64, pool_type: u8, now: i64 },
    Unstake { position: int, amount: u64, now: i64 },
    Deposit { amount: u64, now: i64 },
    Claim { position: int, proof_ok: bool, now: i64 },
    Compound { position: int, proof_ok: bool, now: i64 },
}

/// Whether an operation is permitted on the books it meets.
pub open spec fn step_permitted(books: PoolBooks, step: PoolStep) -> bool {
    match step {
        PoolStep::Stake { position, amount, pool_type, now } => 0 <= position
            < books.positions.len() && stake_refusal(
            books.state,
            books.positions[position],
            amount,
            pool_type,
        ) is None,
        PoolStep::Unstake { position, amount, now } => 0 <= position < books.positions.len()
            && unstake_refusal(books.state, books.positions[position], amount, now) is None,
        PoolStep::Deposit { amount, now } => deposit_permitted(books.state, amount),
        PoolStep::Claim { position, proof_ok, now } => 0 <= position < books.positions.len()
            && claim_outcome(books.state, books.positions[position], proof_ok, now) is Ok,
        PoolStep::Compound { position, proof_ok, now } => 0 <= position < books.positions.len()
            && compound_outcome(books.state, books.positions[position], proof_ok, now) is Ok,
    }
}

/// The books after one operation. A refused operation moves no value and
/// leaves the books as they were. A fee deposit and an early-withdrawal
/// penalty enter the reward pool; a claimed reward leaves it, whether it is
/// paid to the participant or restaked.
pub open spec fn after_step(books: PoolBooks, step: PoolStep) -> PoolBooks {
    if !step_permitted(books, step) {
        books
    } else {
        match step {
            PoolStep::Stake { position, amount, pool_type, now } => PoolBooks {
                state: state_after_stake(books.state, amount),
                positions: books.positions.update(
                    position,
                    position_after_stake(
                        books.state,
                        books.positions[position],
                        amount,
                        pool_type,
                        now,
                    ),
                ),
                ..books
            },
            PoolStep::Unstake { position, amount, now } => PoolBooks {
                state: state_after_unstake(books.state, books.positions[position], amount, now),
                positions: books.positions.update(
                    position,
                    position_after_unstake(books.state, books.positions[position], amount, now),
                ),
                deposited: books.deposited + early_penalty(
                    books.state,
                    books.positions[position],
                    amount,
                    now,
                ),
                ..books
            },
            PoolStep::Deposit { amount, now } => PoolBooks {
                state: state_after_deposit(books.state, amount, now),
                deposited: books.deposited + amount,
                ..books
            },
            PoolStep::Claim { position, proof_ok, now } => PoolBooks {
                positions: books.positions.update(
                    position,
                    position_after_claim(books.state, books.positions[position]),
                ),
                paid: books.paid + claim_outcome(
                    books.state,
                    books.positions[position],
                    proof_ok,
                    now,
                ).unwrap(),
                ..books
            },
            PoolStep::Compound { position, proof_ok, now } => PoolBooks {
                state: state_after_compound(
                    books.state,
                    compound_outcome(books.state, books.positions[position], proof_ok, now).unwrap(),
                ),
                positions: books.positions.update(
                    position,
                    position_after_compound(
                        books.state,
                        books.positions[position],
                        compound_outcome(
                            books.state,
                            books.positions[position],
                            proof_ok,
                            now,
                        ).unwrap(),
                        now,
                    ),
                ),
                paid: books.paid + compound_outcome(
                    books.state,
                    books.positions[position],
                    proof_ok,
                    now,
                ).unwrap(),
                ..books
            },
        }
    }
}

/// The books after a run of operations.
pub open spec fn after_steps(books: PoolBooks, steps: Seq<PoolStep>) -> PoolBooks
    decreases steps.len(),
{
    if steps.len() == 0 {
        books
    } else {
        after_step(after_steps(books, steps.drop_last()), steps.last())
    }
}

/// The ledger's total is the sum of the positions' stakes.
pub open spec fn stake_accounted(books: PoolBooks) -> bool {
    books.state.total_staked == total_stake(books.positions)
}

/// Every position is enrolled in one of the tiers.
pub open spec fn tiers_valid(books: PoolBooks) -> bool {
    forall|i: int| 0 <= i < books.positions.len() ==> (#[trigger] books.positions[i]).well_formed()
}

/// No operation lowers the accumulator, and every operation keeps the
/// ledger's total equal to the sum of the positions' stakes and every
/// position in a valid tier.
pub proof fn lemma_step_keeps_ledger(books: PoolBooks, step: PoolStep)
    ensures
        after_step(books, step).state.acc_reward_per_share >= books.state.acc_reward_per_share,
        after_step(books, step).positions.len() == books.positions.len(),
        stake_accounted(books) ==> stake_accounted(after_step(books, step)),
        tiers_valid(books) ==> tiers_valid(after_step(books, step)),
{
    let staked = |p: UserStake| p.staked_amount as int;
    if step_permitted(books, step) {
        match step {
            PoolStep::Stake { position, amount, pool_type, now } => {
                lemma_sum_over_update(
                    books.positions,
                    staked,
                    position,
                    position_after_stake(
                        books.state,
                        books.positions[position],
                        amount,
                        pool_type,
                        now,
                    ),
                );
            },
            PoolStep::Unstake { position, amount, now } => {
                lemma_sum_over_update(
                    books.positions,
                    staked,
                    position,
                    position_after_unstake(books.state, books.positions[position], amount, now),
                );
            },
            PoolStep::Deposit { amount, now } => {
                assert(crate::staking::accumulator_gain(books.state, amount) >= 0) by {
                    lemma_gain_nonnegative(books.state, amount);
                }
            },
            PoolStep::Claim { position, proof_ok, now } => {
                lemma_sum_over_update(
                    books.positions,
                    staked,
                    position,
                    position_after_claim(books.state, books.positions[position]),
                );
            },
            PoolStep::Compound { position, proof_ok, now } => {
                lemma_sum_over_update(
                    books.positions,
                    staked,
                    position,
                    position_after_compound(
                        books.state,
                        books.positions[position],
                        compound_outcome(
                            books.state,
                            books.positions[position],
                            proof_ok,
                            now,
                        ).unwrap(),
                        now,
                    ),
                );
            },
        }
    }
}

/// A permitted fee deposit adds a non-negative amount to the accumulator.
pub proof fn lemma_gain_nonnegative(state: GlobalState, amount: u64)
    requires
        deposit_permitted(state, amount),
    ensures
        crate::staking::accumulator_gain(state, amount) >= 0,
{
    let cut = crate::staking::insurance_cut(state, amount);
    let total = state.total_staked as int;
    assert(total > 0 ==> ((amount - cut) * 1_000_000_000) / total >= 0) by (nonlinear_arith)
        requires
            cut <= amount,
            0 <= total,
    ;
}

/// Over any run of operations the accumulator never falls, the ledger's
/// total stays equal to the sum of the positions' stakes, and every position
/// stays in a valid tier.
pub proof fn lemma_run_keeps_ledger(books: PoolBooks, steps: Seq<PoolStep>)
    ensures
        after_steps(books, steps).state.acc_reward_per_share >= books.state.acc_reward_per_share,
        after_steps(books, steps).positions.len() == books.positions.len(),
        stake_accounted(books) ==> stake_accounted(after_steps(books, steps)),
        tiers_valid(books) ==> tiers_valid(after_steps(books, steps)),
    decreases steps.len(),
{
    if steps.len() > 0 {
        lemma_run_keeps_ledger(books, steps.drop_last());
        lemma_step_keeps_ledger(after_steps(books, steps.drop_last()), steps.last());
    }
}

} // verus!
