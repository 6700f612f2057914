//! Payment of the rewards that a position has earned.

use crate::accounts::ClaimRewards;
use crate::error::StakeFlowError;
use crate::events::ClaimEvent;
use crate::ledger::{Authority, MintOrder};
use crate::state::UserStake;
use vstd::prelude::*;

verus! {

/// What a claim that went through asks of the ledger and announces.
#[derive(Clone, Copy, Debug, PartialEq, Eq)]
pub struct ClaimOutcome {
    /// The rewards to mint into the participant's reward holding.
    pub mint: MintOrder,
    pub event: ClaimEvent,
}

impl ClaimRewards {
    /// Why a claim is refused at any time, if it is: the first of the checks
    /// on the reward asset, the receiving holding and the right to mint that
    /// fails.
    pub open spec fn refusal_on_accounts(&self) -> Option<StakeFlowError> {
        if self.reward_mint.key != self.config.reward_mint {
            Some(StakeFlowError::InvalidMint)
        } else if self.owner_reward_ata.owner != self.owner {
            Some(StakeFlowError::Unauthorized)
        } else if self.owner_reward_ata.mint != self.config.reward_mint {
            Some(StakeFlowError::InvalidMint)
        } else {
            match self.reward_mint.mint_authority {
                None => Some(StakeFlowError::InvalidMint),
                Some(authority) => if authority != self.reward_mint_authority {
                    Some(StakeFlowError::Unauthorized)
                } else {
                    None
                },
            }
        }
    }

    /// What a claim at the time `now` pays: the unclaimed rewards with those
    /// earned since the last settlement.
    pub open spec fn claimable_at(&self, now: i64) -> u64 {
        self.user_stake.rewards_at(now, self.config.apr_bps)
    }

    /// Why a claim at the time `now` is refused, if it is: for its accounts,
    /// or because there is nothing to pay.
    pub open spec fn refusal(&self, now: i64) -> Option<StakeFlowError> {
        match self.refusal_on_accounts() {
            Some(error) => Some(error),
            None => if self.claimable_at(now) == 0 {
                Some(StakeFlowError::InvalidAmount)
            } else {
                None
            },
        }
    }

    /// The position after an accepted claim at the time `now`: nothing is
    /// left unclaimed, and the clock stands at `now`.
    pub open spec fn position_after(&self, now: i64) -> UserStake {
        UserStake { pending_rewards: 0, last_update_ts: now, ..self.user_stake }
    }

    /// What an accepted claim at the time `now` asks and announces.
    pub open spec fn outcome(&self, now: i64) -> ClaimOutcome {
        let total = self.claimable_at(now);
        ClaimOutcome {
            mint: MintOrder {
                authority: Authority::RewardMint { bump: self.config.reward_mint_auth_bump },
                amount: total,
            },
            event: ClaimEvent { owner: self.owner, rewards: total },
        }
    }

    /// Runs the checks that do not depend on the time.
    pub fn check_accounts(&self) -> (result: Result<(), StakeFlowError>)
        ensures
            result == match self.refusal_on_accounts() {
                Some(error) => Err::<(), StakeFlowError>(error),
                None => Ok(()),
            },
    {
        if self.reward_mint.key != self.config.reward_mint {
            return Err(StakeFlowError::InvalidMint);
        }
        if self.owner_reward_ata.owner != self.owner {
            return Err(StakeFlowError::Unauthorized);
        }
        if self.owner_reward_ata.mint != self.config.reward_mint {
            return Err(StakeFlowError::InvalidMint);
        }
        match self.reward_mint.mint_authority {
            Some(authority) => {
                if authority != self.reward_mint_authority {
                    return Err(StakeFlowError::Unauthorized);
                }
            },
            None => {
                return Err(StakeFlowError::InvalidMint);
            },
        }
        Ok(())
    }
}

/// Pays out, at the time `now`, all that the position has earned.
///
/// The rewards earned since the last settlement are added to the unclaimed
/// ones, and the sum is minted to the participant under the program's
/// reward-minting authority. A claim for nothing is refused, and a refused
/// claim leaves the position as it was.
pub fn claim_rewards(ctx: &mut ClaimRewards, now: i64) -> (result: Result<
    ClaimOutcome,
    StakeFlowError,
>)
    ensures
        match old(ctx).refusal(now) {
            Some(error) => result == Err::<ClaimOutcome, StakeFlowError>(error) && *final(ctx)
                == *old(ctx),
            None => result == Ok::<ClaimOutcome, StakeFlowError>(old(ctx).outcome(now))
                && *final(ctx) == (ClaimRewards {
                user_stake: old(ctx).position_after(now),
                ..*old(ctx)
            }),
        },
        old(ctx).refusal_on_accounts() is None && old(ctx).user_stake.pending_rewards == 0
            && old(ctx).user_stake.accrued_at(now, old(ctx).config.apr_bps) == 0 ==> result
            == Err::<ClaimOutcome, StakeFlowError>(StakeFlowError::InvalidAmount) && *final(ctx)
            == *old(ctx),
        result matches Ok(outcome) ==> {
            &&& final(ctx).user_stake.pending_rewards == 0
            &&& final(ctx).user_stake.last_update_ts == now
            &&& outcome.mint.amount > 0
            &&& outcome.mint.amount == outcome.event.rewards
            &&& outcome.mint.authority.is_program()
            &&& old(ctx).user_stake.wf() ==> final(ctx).user_stake.wf()
        },
{
    match ctx.check_accounts() {
        Err(error) => {
            return Err(error);
        },
        Ok(()) => {},
    }
    let accrued = crate::accrual::calc_rewards_between(
        ctx.user_stake.staked_amount,
        ctx.user_stake.last_update_ts,
        now,
        ctx.config.apr_bps,
    );
    let total: u64 = ctx.user_stake.pending_rewards.saturating_add(accrued);
    if total == 0 {
        return Err(StakeFlowError::InvalidAmount);
    }
    ctx.user_stake.pending_rewards = 0;
    ctx.user_stake.last_update_ts = now;
    Ok(
        ClaimOutcome {
            mint: MintOrder {
                authority: Authority::RewardMint { bump: ctx.config.reward_mint_auth_bump },
                amount: total,
            },
            event: ClaimEvent { owner: ctx.owner, rewards: total },
        },
    )
}

} // verus!
