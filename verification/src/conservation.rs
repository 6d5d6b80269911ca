//! No value is created: over any run of fee deposits, claims and complete
//! withdrawals, the rewards paid out plus the insurance fund never exceed
//! what has entered the reward pool.
//!
//! The argument is an invariant over the ledger, every base position, and
//! two running totals: what has entered the reward pool and what has been
//! paid out of it. Fee deposits, claims and complete withdrawals keep the
//! invariant, and the invariant bounds the payouts. A claim whose
//! multipliers pay more than the settled balance is a deliberate bonus on
//! top of the accrued reward, and is outside the invariant. So are the
//! operations that leave a position with a new, non-zero stake: its baseline
//! is rounded down, in the participant's favour, by up to one unit.

use vstd::prelude::*;
use crate::math::REWARD_MULTIPLIER;
use crate::rewards::{accumulated, claim_reward_spec, pending_owed, settle_spec, THIRTY_DAYS};
use crate::staking::{
    accumulator_gain, claim_outcome, deposit_permitted, early_penalty, insurance_cut, is_locked,
    position_after_claim, position_after_unstake, state_after_deposit, state_after_unstake,
    unstake_refusal,
};
use crate::books::{
    after_step, after_steps, lemma_sum_over_update, step_permitted, total_debt, total_pending,
    total_stake, PoolBooks, PoolStep,
};
use crate::state::{GlobalState, UserStake};

verus! {

/// The invariant. The ledger's total is the sum of the positions' stakes, no
/// baseline is ahead of the accumulator, and everything booked so far (paid,
/// pending, in the insurance fund, or accrued beyond the baselines) is
/// covered by what was deposited. The last part is stated at the scale of
/// the accumulator, so that no rounding enters.
pub open spec fn conserved(
    state: GlobalState,
    positions: Seq<UserStake>,
    deposited: int,
    paid: int,
) -> bool {
    &&& state.total_staked == total_stake(positions)
    &&& forall|i: int|
        0 <= i < positions.len() ==> pending_owed(
            #[trigger] positions[i].staked_amount,
            positions[i].reward_debt,
            state.acc_reward_per_share,
        ) >= 0
    &&& REWARD_MULTIPLIER * (total_pending(positions) + paid + state.insurance_fund - total_debt(
        positions,
    )) + state.total_staked * state.acc_reward_per_share <= REWARD_MULTIPLIER * deposited
}

/// A sum of amounts is never negative.
pub proof fn lemma_total_pending_nonnegative(positions: Seq<UserStake>)
    ensures
        0 <= total_pending(positions),
    decreases positions.len(),
{
    if positions.len() > 0 {
        lemma_total_pending_nonnegative(positions.drop_last());
    }
}

/// Positions whose baselines are not ahead of the accumulator have, between
/// them, no more baseline than their stake has accumulated.
pub proof fn lemma_debt_within_accumulated(positions: Seq<UserStake>, acc: u64)
    requires
        forall|i: int|
            0 <= i < positions.len() ==> pending_owed(
                #[trigger] positions[i].staked_amount,
                positions[i].reward_debt,
                acc,
            ) >= 0,
    ensures
        REWARD_MULTIPLIER * total_debt(positions) <= total_stake(positions) * acc,
    decreases positions.len(),
{
    if positions.len() > 0 {
        let rest = positions.drop_last();
        let last = positions.last();
        assert forall|i: int| 0 <= i < rest.len() implies pending_owed(
            #[trigger] rest[i].staked_amount,
            rest[i].reward_debt,
            acc,
        ) >= 0 by {
            assert(rest[i] == positions[i]);
        }
        lemma_debt_within_accumulated(rest, acc);
        assert(pending_owed(last.staked_amount, last.reward_debt, acc) >= 0);
        lemma_baseline_scaled(last.staked_amount, last.reward_debt, acc);
        assert(REWARD_MULTIPLIER * (total_debt(rest) + last.reward_debt) == REWARD_MULTIPLIER
            * total_debt(rest) + REWARD_MULTIPLIER * last.reward_debt) by (nonlinear_arith);
        assert((total_stake(rest) + last.staked_amount) * acc == total_stake(rest) * acc
            + last.staked_amount * acc) by (nonlinear_arith);
    }
}

/// A baseline that is not ahead of the accumulator, at the accumulator's
/// scale.
pub proof fn lemma_baseline_scaled(staked: u64, reward_debt: u64, acc: u64)
    requires
        pending_owed(staked, reward_debt, acc) >= 0,
    ensures
        REWARD_MULTIPLIER * reward_debt <= staked * acc,
{
    let product = staked as int * acc as int;
    assert(0 <= product) by (nonlinear_arith)
        requires
            product == staked as int * acc as int,
            0 <= staked,
            0 <= acc,
    ;
    assert(1_000_000_000 * (product / 1_000_000_000) <= product) by (nonlinear_arith)
        requires
            0 <= product,
    ;
}

/// The bound that the invariant gives: rewards paid, rewards pending and the
/// insurance fund together never exceed what was deposited.
pub proof fn lemma_conserved_bound(
    state: GlobalState,
    positions: Seq<UserStake>,
    deposited: int,
    paid: int,
)
    requires
        conserved(state, positions, deposited, paid),
    ensures
        paid + total_pending(positions) + state.insurance_fund <= deposited,
        paid + state.insurance_fund <= deposited,
{
    lemma_debt_within_accumulated(positions, state.acc_reward_per_share);
    lemma_total_pending_nonnegative(positions);
    let booked = total_pending(positions) + paid + state.insurance_fund;
    let debt = total_debt(positions);
    assert(REWARD_MULTIPLIER * (booked - debt) == REWARD_MULTIPLIER * booked - REWARD_MULTIPLIER
        * debt) by (nonlinear_arith);
    assert(booked <= deposited) by (nonlinear_arith)
        requires
            1_000_000_000 * booked <= 1_000_000_000 * deposited,
    ;
}

/// A pool in which nothing has accumulated, nothing is pending and nothing
/// has been deposited or paid satisfies the invariant.
pub proof fn lemma_conserved_at_genesis(state: GlobalState, positions: Seq<UserStake>)
    requires
        state.acc_reward_per_share == 0,
        state.insurance_fund == 0,
        state.total_staked == total_stake(positions),
        forall|i: int|
            0 <= i < positions.len() ==> (#[trigger] positions[i]).reward_debt == 0
                && positions[i].pending_rewards == 0,
    ensures
        conserved(state, positions, 0, 0),
{
    lemma_sums_vanish(positions);
    assert forall|i: int| 0 <= i < positions.len() implies pending_owed(
        #[trigger] positions[i].staked_amount,
        positions[i].reward_debt,
        state.acc_reward_per_share,
    ) >= 0 by {
        assert(positions[i].reward_debt == 0);
        assert(positions[i].staked_amount as int * 0 == 0);
    }
    assert(state.total_staked * 0 == 0);
}

/// Positions without baseline and without pending rewards sum to zero in
/// both.
pub proof fn lemma_sums_vanish(positions: Seq<UserStake>)
    requires
        forall|i: int|
            0 <= i < positions.len() ==> (#[trigger] positions[i]).reward_debt == 0
                && positions[i].pending_rewards == 0,
    ensures
        total_debt(positions) == 0,
        total_pending(positions) == 0,
    decreases positions.len(),
{
    if positions.len() > 0 {
        let rest = positions.drop_last();
        assert forall|i: int| 0 <= i < rest.len() implies (#[trigger] rest[i]).reward_debt == 0
            && rest[i].pending_rewards == 0 by {
            assert(rest[i] == positions[i]);
        }
        lemma_sums_vanish(rest);
        assert(positions.last() == positions[positions.len() - 1]);
    }
}

/// A permitted fee deposit keeps the invariant, with the deposit added to
/// what was deposited.
pub proof fn lemma_deposit_conserves(
    state: GlobalState,
    positions: Seq<UserStake>,
    deposited: int,
    paid: int,
    amount: u64,
    now: i64,
)
    requires
        conserved(state, positions, deposited, paid),
        deposit_permitted(state, amount),
    ensures
        conserved(state_after_deposit(state, amount, now), positions, deposited + amount, paid),
{
    let after = state_after_deposit(state, amount, now);
    let cut = insurance_cut(state, amount);
    let gain = accumulator_gain(state, amount);
    let total = state.total_staked as int;
    let acc = state.acc_reward_per_share as int;
    assert(0 <= cut) by (nonlinear_arith)
        requires
            cut == (amount as int * state.insurance_fee_percent as int) / 10_000,
            0 <= amount,
            0 <= state.insurance_fee_percent,
    ;
    // What the accumulator gains, times the stake, is covered by the
    // distributable part of the deposit.
    assert(0 <= gain && total * gain <= (amount - cut) * 1_000_000_000) by (nonlinear_arith)
        requires
            0 <= total,
            0 <= cut <= amount,
            gain == if total > 0 {
                ((amount - cut) * 1_000_000_000) / total
            } else {
                0
            },
    ;
    assert(total * (acc + gain) == total * acc + total * gain) by (nonlinear_arith);
    assert(after.acc_reward_per_share == acc + gain);
    assert(after.insurance_fund == state.insurance_fund + cut);
    let booked = total_pending(positions) + paid + state.insurance_fund - total_debt(positions);
    assert(REWARD_MULTIPLIER * (booked + cut) == REWARD_MULTIPLIER * booked + 1_000_000_000 * cut)
        by (nonlinear_arith);
    assert(REWARD_MULTIPLIER * (deposited + amount) == REWARD_MULTIPLIER * deposited
        + 1_000_000_000 * amount) by (nonlinear_arith);
    assert((amount - cut) * 1_000_000_000 == 1_000_000_000 * amount - 1_000_000_000 * cut)
        by (nonlinear_arith);
    assert forall|i: int| 0 <= i < positions.len() implies pending_owed(
        #[trigger] positions[i].staked_amount,
        positions[i].reward_debt,
        after.acc_reward_per_share,
    ) >= 0 by {
        lemma_accumulated_monotone(
            positions[i].staked_amount,
            state.acc_reward_per_share,
            after.acc_reward_per_share,
        );
    }
}

/// A position accumulates no less at a higher accumulator.
pub proof fn lemma_accumulated_monotone(staked: u64, lower: u64, higher: u64)
    requires
        lower <= higher,
    ensures
        accumulated(staked, lower) <= accumulated(staked, higher),
{
    assert((staked as int * lower as int) / 1_000_000_000 <= (staked as int * higher as int)
        / 1_000_000_000) by (nonlinear_arith)
        requires
            0 <= staked,
            0 <= lower <= higher,
    ;
}

/// A permitted claim that pays no more than the position's settled balance
/// keeps the invariant, with the reward added to what was paid.
pub proof fn lemma_claim_conserves(
    state: GlobalState,
    positions: Seq<UserStake>,
    deposited: int,
    paid: int,
    i: int,
    proof_ok: bool,
    now: i64,
)
    requires
        conserved(state, positions, deposited, paid),
        0 <= i < positions.len(),
        claim_outcome(state, positions[i], proof_ok, now) is Ok,
        claim_outcome(state, positions[i], proof_ok, now).unwrap() <= settle_spec(
            positions[i].staked_amount,
            positions[i].reward_debt,
            positions[i].pending_rewards,
            state.acc_reward_per_share,
        ).unwrap(),
    ensures
        conserved(
            state,
            positions.update(i, position_after_claim(state, positions[i])),
            deposited,
            paid + claim_outcome(state, positions[i], proof_ok, now).unwrap(),
        ),
{
    let before = positions[i];
    let after = position_after_claim(state, before);
    let updated = positions.update(i, after);
    let reward = claim_outcome(state, before, proof_ok, now).unwrap();
    let acc = state.acc_reward_per_share;
    lemma_sum_over_update(positions, |p: UserStake| p.staked_amount as int, i, after);
    lemma_sum_over_update(positions, |p: UserStake| p.pending_rewards as int, i, after);
    lemma_sum_over_update(positions, |p: UserStake| p.reward_debt as int, i, after);
    assert(pending_owed(before.staked_amount, before.reward_debt, acc) >= 0);
    assert(after.reward_debt == accumulated(before.staked_amount, acc));
    assert forall|j: int| 0 <= j < updated.len() implies pending_owed(
        #[trigger] updated[j].staked_amount,
        updated[j].reward_debt,
        acc,
    ) >= 0 by {
        if j != i {
            assert(updated[j] == positions[j]);
        }
    }
    let booked = total_pending(positions) + paid + state.insurance_fund - total_debt(positions);
    let booked_after = total_pending(updated) + (paid + reward) + state.insurance_fund
        - total_debt(updated);
    assert(booked_after <= booked);
    assert(REWARD_MULTIPLIER * booked_after <= REWARD_MULTIPLIER * booked) by (nonlinear_arith)
        requires
            booked_after <= booked,
    ;
}

/// A claim made within thirty days of staking, at a utilization multiplier
/// of at most 100 and without a volume bonus, pays no more than the settled
/// balance.
pub proof fn lemma_plain_claim_pays_no_bonus(
    settled: u64,
    staked_duration: int,
    utilization_multiplier: u64,
    trade_volume: u64,
)
    requires
        staked_duration < THIRTY_DAYS,
        utilization_multiplier <= 100,
        trade_volume <= 10_000,
    ensures
        claim_reward_spec(settled, staked_duration, utilization_multiplier, trade_volume) is Ok,
        claim_reward_spec(
            settled,
            staked_duration,
            utilization_multiplier,
            trade_volume,
        ).unwrap() <= settled,
{
    assert((settled as int * 100) / 100 == settled);
    assert(0 <= (settled as int * utilization_multiplier as int) / 100 <= settled)
        by (nonlinear_arith)
        requires
            0 <= settled,
            0 <= utilization_multiplier <= 100,
    ;
    let utilized = ((settled as int * utilization_multiplier as int) / 100) as u64;
    assert((utilized as int * 100) / 100 == utilized);
}

/// The invariant, on a pool with its books.
pub open spec fn books_conserved(books: PoolBooks) -> bool {
    conserved(books.state, books.positions, books.deposited, books.paid)
}

/// A permitted withdrawal of a position's whole stake keeps the invariant,
/// with the penalty added to what has entered the reward pool.
pub proof fn lemma_full_unstake_conserves(
    state: GlobalState,
    positions: Seq<UserStake>,
    deposited: int,
    paid: int,
    i: int,
    now: i64,
)
    requires
        conserved(state, positions, deposited, paid),
        0 <= i < positions.len(),
        unstake_refusal(state, positions[i], positions[i].staked_amount, now) is None,
    ensures
        conserved(
            state_after_unstake(state, positions[i], positions[i].staked_amount, now),
            positions.update(
                i,
                position_after_unstake(state, positions[i], positions[i].staked_amount, now),
            ),
            deposited + early_penalty(state, positions[i], positions[i].staked_amount, now),
            paid,
        ),
{
    let before = positions[i];
    let amount = before.staked_amount;
    let after = position_after_unstake(state, before, amount, now);
    let after_state = state_after_unstake(state, before, amount, now);
    let updated = positions.update(i, after);
    let penalty = early_penalty(state, before, amount, now);
    let acc = state.acc_reward_per_share;
    lemma_sum_over_update(positions, |p: UserStake| p.staked_amount as int, i, after);
    lemma_sum_over_update(positions, |p: UserStake| p.pending_rewards as int, i, after);
    lemma_sum_over_update(positions, |p: UserStake| p.reward_debt as int, i, after);
    assert(0 <= penalty) by (nonlinear_arith)
        requires
            penalty == if is_locked(state, before, now) {
                (amount as int * state.early_withdrawal_penalty as int) / 10_000
            } else {
                0
            },
            0 <= amount,
            0 <= state.early_withdrawal_penalty,
    ;
    assert(accumulated(0, acc) == 0) by {
        assert(0 * (acc as int) == 0);
    }
    assert(after.staked_amount == 0);
    assert(after.reward_debt == 0);
    assert forall|j: int| 0 <= j < updated.len() implies pending_owed(
        #[trigger] updated[j].staked_amount,
        updated[j].reward_debt,
        acc,
    ) >= 0 by {
        if j != i {
            assert(updated[j] == positions[j]);
        }
    }
    let earned = accumulated(amount, acc);
    let product = amount as int * acc as int;
    assert(1_000_000_000 * earned <= product) by (nonlinear_arith)
        requires
            earned == product / 1_000_000_000,
    ;
    let total = state.total_staked as int;
    assert((total - amount) * acc == total * acc - product) by (nonlinear_arith)
        requires
            product == amount as int * acc as int,
    ;
    let booked = total_pending(positions) + paid + state.insurance_fund - total_debt(positions);
    let booked_after = total_pending(updated) + paid + after_state.insurance_fund - total_debt(
        updated,
    );
    assert(booked_after == booked + earned + penalty);
    assert(REWARD_MULTIPLIER * booked_after == REWARD_MULTIPLIER * booked + 1_000_000_000 * earned
        + 1_000_000_000 * penalty) by (nonlinear_arith)
        requires
            booked_after == booked + earned + penalty,
    ;
    assert(REWARD_MULTIPLIER * (deposited + penalty) == REWARD_MULTIPLIER * deposited
        + 1_000_000_000 * penalty) by (nonlinear_arith);
}

/// Whether an operation is one that the invariant covers: a fee deposit, a
/// claim that pays at most the position's settled balance where it succeeds,
/// or a withdrawal that takes the position's whole stake where it succeeds.
pub open spec fn keeps_value(books: PoolBooks, step: PoolStep) -> bool {
    match step {
        PoolStep::Deposit { .. } => true,
        PoolStep::Claim { position, proof_ok, now } => step_permitted(books, step)
            ==> claim_outcome(books.state, books.positions[position], proof_ok, now).unwrap()
            <= settle_spec(
            books.positions[position].staked_amount,
            books.positions[position].reward_debt,
            books.positions[position].pending_rewards,
            books.state.acc_reward_per_share,
        ).unwrap(),
        PoolStep::Unstake { position, amount, now } => step_permitted(books, step) ==> amount
            == books.positions[position].staked_amount,
        _ => false,
    }
}

/// Whether every operation of a run is one that the invariant covers, each
/// judged on the books it meets.
pub open spec fn run_keeps_value(books: PoolBooks, steps: Seq<PoolStep>) -> bool
    decreases steps.len(),
{
    steps.len() == 0 || (run_keeps_value(books, steps.drop_last()) && keeps_value(
        after_steps(books, steps.drop_last()),
        steps.last(),
    ))
}

/// An operation that the invariant covers keeps it.
pub proof fn lemma_step_conserves(books: PoolBooks, step: PoolStep)
    requires
        books_conserved(books),
        keeps_value(books, step),
    ensures
        books_conserved(after_step(books, step)),
{
    if step_permitted(books, step) {
        match step {
            PoolStep::Deposit { amount, now } => {
                lemma_deposit_conserves(
                    books.state,
                    books.positions,
                    books.deposited,
                    books.paid,
                    amount,
                    now,
                );
            },
            PoolStep::Claim { position, proof_ok, now } => {
                lemma_claim_conserves(
                    books.state,
                    books.positions,
                    books.deposited,
                    books.paid,
                    position,
                    proof_ok,
                    now,
                );
            },
            PoolStep::Unstake { position, amount, now } => {
                lemma_full_unstake_conserves(
                    books.state,
                    books.positions,
                    books.deposited,
                    books.paid,
                    position,
                    now,
                );
            },
            _ => {},
        }
    }
}

/// Conservation: after any run of fee deposits, claims that pay no bonus and
/// complete withdrawals, the rewards paid out plus the insurance fund do not
/// exceed what has entered the reward pool.
pub proof fn lemma_run_conserves(books: PoolBooks, steps: Seq<PoolStep>)
    requires
        books_conserved(books),
        run_keeps_value(books, steps),
    ensures
        books_conserved(after_steps(books, steps)),
        after_steps(books, steps).paid + after_steps(books, steps).state.insurance_fund
            <= after_steps(books, steps).deposited,
    decreases steps.len(),
{
    if steps.len() > 0 {
        lemma_run_conserves(books, steps.drop_last());
        lemma_step_conserves(after_steps(books, steps.drop_last()), steps.last());
    }
    let end = after_steps(books, steps);
    lemma_conserved_bound(end.state, end.positions, end.deposited, end.paid);
}

} // verus!
