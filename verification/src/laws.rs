//! What holds across operations: of a withdrawal after the lock, of deposits
//! followed by withdrawals, of claims that follow claims, and of closing.

use crate::accounts::{ClaimRewards, CloseUserStake, Stake, Unstake};
use crate::error::StakeFlowError;
use crate::instructions::unstake::lemma_early_penalty_within_amount;
use crate::state::saturating_sum;
use vstd::prelude::*;

verus! {

/// A withdrawal once the lock has run out forfeits nothing, whatever the
/// penalty rate: where it is accepted, all of the amount is paid out and
/// nothing goes to the penalty vault.
pub proof fn lemma_unstake_after_lock_is_free(ctx: Unstake, now: i64, amount: u64)
    requires
        now >= ctx.user_stake.lock_until_ts,
    ensures
        ctx.penalty_at(now, amount) == 0,
        ctx.refusal(now, amount) == ctx.refusal_on_accounts(amount),
        ctx.refusal(now, amount) is None ==> {
            &&& ctx.outcome(now, amount).event.penalty == 0
            &&& ctx.outcome(now, amount).penalty_transfer is None
            &&& ctx.outcome(now, amount).net_transfer.amount == amount
        },
{
}

/// Under parameters in range, a withdrawal whose accounts pass the checks is
/// refused only while the lock runs and the penalty is the whole.
pub proof fn lemma_unstake_refused_only_by_whole_penalty(ctx: Unstake, now: i64, amount: u64)
    requires
        ctx.config.wf(),
        ctx.refusal_on_accounts(amount) is None,
    ensures
        ctx.refusal(now, amount) is Some <==> now < ctx.user_stake.lock_until_ts
            && ctx.config.early_unstake_penalty_bps == 10_000,
{
    let penalty_bps = ctx.config.early_unstake_penalty_bps;
    lemma_early_penalty_within_amount(amount, penalty_bps);
    if penalty_bps == 10_000 {
        assert(amount * penalty_bps == amount * 10_000);
    }
}

/// An accepted withdrawal never takes more than the position holds: the
/// principal falls by exactly the amount and stays at or above zero, what is
/// forfeited and what is paid out add up to the amount, and the position is
/// well-formed afterwards.
pub proof fn lemma_unstake_never_overdraws(ctx: Unstake, now: i64, amount: u64)
    requires
        ctx.refusal(now, amount) is None,
    ensures
        amount <= ctx.user_stake.staked_amount,
        ctx.position_after(now, amount).staked_amount == ctx.user_stake.staked_amount - amount,
        ctx.outcome(now, amount).event.penalty + ctx.outcome(now, amount).net_transfer.amount
            == amount,
        ctx.position_after(now, amount).wf(),
{
}

/// A deposit followed by the withdrawal of the same amount, both accepted,
/// leaves the principal where the deposit found it, unless the deposit ran
/// into the largest balance; in either case the principal is not negative.
pub proof fn lemma_stake_then_unstake(
    deposit: Stake,
    deposit_time: i64,
    withdrawal: Unstake,
    withdrawal_time: i64,
    amount: u64,
)
    requires
        deposit.refusal(amount) is None,
        withdrawal.user_stake == deposit.position_after(deposit_time, amount),
        withdrawal.refusal(withdrawal_time, amount) is None,
    ensures
        withdrawal.position_after(withdrawal_time, amount).staked_amount == saturating_sum(
            deposit.user_stake.staked_amount,
            amount,
        ) - amount,
        withdrawal.position_after(withdrawal_time, amount).staked_amount >= 0,
        deposit.user_stake.staked_amount + amount <= u64::MAX ==> withdrawal.position_after(
            withdrawal_time,
            amount,
        ).staked_amount == deposit.user_stake.staked_amount,
{
}

/// A claim on a position that has nothing unclaimed and has earned nothing
/// since its last settlement is refused as an invalid amount, if its accounts
/// pass the checks.
pub proof fn lemma_claim_of_nothing_is_refused(ctx: ClaimRewards, now: i64)
    requires
        ctx.refusal_on_accounts() is None,
        ctx.user_stake.pending_rewards == 0,
        ctx.user_stake.accrued_at(now, ctx.config.apr_bps) == 0,
    ensures
        ctx.refusal(now) == Some(StakeFlowError::InvalidAmount),
{
}

/// After an accepted claim nothing is left unclaimed, and a second claim at
/// the same time is refused as an invalid amount.
pub proof fn lemma_second_claim_is_refused(ctx: ClaimRewards, now: i64)
    requires
        ctx.refusal(now) is None,
    ensures
        ctx.position_after(now).pending_rewards == 0,
        (ClaimRewards { user_stake: ctx.position_after(now), ..ctx }).refusal(now) == Some(
            StakeFlowError::InvalidAmount,
        ),
{
}

/// The owner may close a position exactly when it holds no principal and no
/// unclaimed rewards; with either left, closing is refused as not closable.
pub proof fn lemma_close_needs_empty_position(ctx: CloseUserStake)
    requires
        ctx.user_stake matches Some(position) && position.owner == ctx.owner,
    ensures
        ctx.refusal(ctx.user_stake.unwrap()) is None <==> ctx.user_stake.unwrap().staked_amount
            == 0 && ctx.user_stake.unwrap().pending_rewards == 0,
        ctx.user_stake.unwrap().staked_amount != 0 || ctx.user_stake.unwrap().pending_rewards != 0
            ==> ctx.refusal(ctx.user_stake.unwrap()) == Some(StakeFlowError::NotClosable),
{
}

} // verus!
