//! Deposit of principal.

use crate::accounts::Stake;
use crate::error::StakeFlowError;
use crate::events::StakeEvent;
use crate::ledger::{Authority, StakeHolding, TransferOrder};
use crate::state::{saturating_sum, saturating_time, time_after, UserStake};
use vstd::prelude::*;

verus! {

/// What a deposit that went through asks of the ledger and announces.
#[derive(Clone, Copy, Debug, PartialEq, Eq)]
pub struct StakeOutcome {
    /// The deposit, from the participant's holding to the stake vault.
    pub transfer: TransferOrder,
    pub event: StakeEvent,
}

impl Stake {
    /// Why a deposit of `amount` is refused, if it is: the first of the
    /// checks on the amount and the holdings that fails.
    pub open spec fn refusal(&self, amount: u64) -> Option<StakeFlowError> {
        if amount == 0 {
            Some(StakeFlowError::InvalidAmount)
        } else if self.owner_stake_ata.owner != self.owner {
            Some(StakeFlowError::Unauthorized)
        } else if self.owner_stake_ata.mint != self.config.stake_mint {
            Some(StakeFlowError::InvalidMint)
        } else if self.stake_vault.mint != self.config.stake_mint {
            Some(StakeFlowError::InvalidMint)
        } else {
            None
        }
    }

    /// The position after an accepted deposit of `amount` at the time `now`:
    /// settled, the principal raised, and the whole position locked anew for
    /// the configured duration.
    pub open spec fn position_after(&self, now: i64, amount: u64) -> UserStake {
        UserStake {
            staked_amount: saturating_sum(self.user_stake.staked_amount, amount),
            lock_until_ts: saturating_time(now, self.config.min_lock_duration),
            ..self.user_stake.settled(now, self.config.apr_bps)
        }
    }

    /// What an accepted deposit of `amount` asks and announces.
    pub open spec fn outcome(&self, amount: u64) -> StakeOutcome {
        StakeOutcome {
            transfer: TransferOrder {
                from: StakeHolding::Participant,
                to: StakeHolding::StakeVault,
                authority: Authority::Participant,
                amount,
            },
            event: StakeEvent { owner: self.owner, amount },
        }
    }

    /// Runs the checks, none of which depends on the time.
    pub fn check_accounts(&self, amount: u64) -> (result: Result<(), StakeFlowError>)
        ensures
            result == match self.refusal(amount) {
                Some(error) => Err::<(), StakeFlowError>(error),
                None => Ok(()),
            },
    {
        if amount == 0 {
            return Err(StakeFlowError::InvalidAmount);
        }
        if self.owner_stake_ata.owner != self.owner {
            return Err(StakeFlowError::Unauthorized);
        }
        if self.owner_stake_ata.mint != self.config.stake_mint {
            return Err(StakeFlowError::InvalidMint);
        }
        if self.stake_vault.mint != self.config.stake_mint {
            return Err(StakeFlowError::InvalidMint);
        }
        Ok(())
    }
}

/// Deposits `amount` into the participant's position at the time `now`.
///
/// The position is settled first; then the deposit is asked of the ledger
/// under the participant's own authority, the principal rises by the amount,
/// and the lock of the whole position starts anew. Balances and times are
/// held at their largest value rather than wrapped. A refused deposit leaves
/// the position as it was.
pub fn stake(ctx: &mut Stake, now: i64, amount: u64) -> (result: Result<
    StakeOutcome,
    StakeFlowError,
>)
    ensures
        match old(ctx).refusal(amount) {
            Some(error) => result == Err::<StakeOutcome, StakeFlowError>(error) && *final(ctx)
                == *old(ctx),
            None => result == Ok::<StakeOutcome, StakeFlowError>(old(ctx).outcome(amount))
                && *final(ctx) == (Stake {
                user_stake: old(ctx).position_after(now, amount),
                ..*old(ctx)
            }),
        },
        result matches Ok(outcome) ==> {
            &&& final(ctx).user_stake.wf()
            &&& final(ctx).user_stake.staked_amount >= old(ctx).user_stake.staked_amount
            &&& final(ctx).user_stake.staked_amount > 0
            &&& outcome.transfer.amount == amount
            &&& outcome.transfer.respects_custody(old(ctx).config.bump)
        },
{
    match ctx.check_accounts(amount) {
        Err(error) => {
            return Err(error);
        },
        Ok(()) => {},
    }
    ctx.user_stake.settle(now, ctx.config.apr_bps);
    ctx.user_stake.staked_amount = ctx.user_stake.staked_amount.saturating_add(amount);
    ctx.user_stake.lock_until_ts = time_after(now, ctx.config.min_lock_duration);
    Ok(
        StakeOutcome {
            transfer: TransferOrder {
                from: StakeHolding::Participant,
                to: StakeHolding::StakeVault,
                authority: Authority::Participant,
                amount,
            },
            event: StakeEvent { owner: ctx.owner, amount },
        },
    )
}

} // verus!
