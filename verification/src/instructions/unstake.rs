//! Withdrawal of principal, with a penalty while the position is locked.

use crate::accounts::Unstake;
use crate::error::StakeFlowError;
use crate::events::UnstakeEvent;
use crate::ledger::{Authority, StakeHolding, TransferOrder};
use crate::state::UserStake;
use vstd::prelude::*;

verus! {

/// What is forfeited of `amount` at a penalty of `penalty_bps` basis points:
/// that share of it, rounded down.
pub open spec fn early_penalty(amount: u64, penalty_bps: u16) -> int {
    amount * penalty_bps / 10_000
}

/// A penalty of no more than the whole forfeits no more than the amount, and
/// less than the amount unless it is the whole.
pub proof fn lemma_early_penalty_within_amount(amount: u64, penalty_bps: u16)
    requires
        penalty_bps <= 10_000,
    ensures
        0 <= early_penalty(amount, penalty_bps) <= amount,
        amount > 0 && penalty_bps < 10_000 ==> early_penalty(amount, penalty_bps) < amount,
{
    assert(amount * penalty_bps <= amount * 10_000) by (nonlinear_arith)
        requires
            0 <= amount,
            0 <= penalty_bps <= 10_000,
    ;
    if amount > 0 && penalty_bps < 10_000 {
        assert(amount * penalty_bps <= amount * 10_000 - amount) by (nonlinear_arith)
            requires
                0 < amount,
                0 <= penalty_bps <= 9_999,
        ;
    }
}

/// Computes [`early_penalty`].
pub fn early_unstake_penalty(amount: u64, penalty_bps: u16) -> (penalty: u128)
    ensures
        penalty == early_penalty(amount, penalty_bps),
{
    assert(amount * penalty_bps <= 0xffff_ffff_ffff_ffff * 0xffff) by (nonlinear_arith)
        requires
            0 <= amount <= 0xffff_ffff_ffff_ffff,
            0 <= penalty_bps <= 0xffff,
    ;
    (amount as u128) * (penalty_bps as u128) / 10_000
}

/// What a withdrawal that went through asks of the ledger and announces.
#[derive(Clone, Copy, Debug, PartialEq, Eq)]
pub struct UnstakeOutcome {
    /// The forfeited part, from the stake vault to the penalty vault; none
    /// where nothing is forfeited.
    pub penalty_transfer: Option<TransferOrder>,
    /// The rest, from the stake vault to the participant.
    pub net_transfer: TransferOrder,
    pub event: UnstakeEvent,
}

impl Unstake {
    /// Why a withdrawal of `amount` is refused at any time, if it is: the
    /// first of the checks on the amount, the holdings and the principal
    /// that fails.
    pub open spec fn refusal_on_accounts(&self, amount: u64) -> Option<StakeFlowError> {
        if amount == 0 {
            Some(StakeFlowError::InvalidAmount)
        } else if self.owner_stake_ata.owner != self.owner {
            Some(StakeFlowError::Unauthorized)
        } else if self.owner_stake_ata.mint != self.config.stake_mint {
            Some(StakeFlowError::InvalidMint)
        } else if self.stake_vault.mint != self.config.stake_mint {
            Some(StakeFlowError::InvalidMint)
        } else if self.penalty_vault.mint != self.config.stake_mint {
            Some(StakeFlowError::InvalidMint)
        } else if amount > self.user_stake.staked_amount {
            Some(StakeFlowError::InsufficientStake)
        } else {
            None
        }
    }

    /// What a withdrawal of `amount` at the time `now` forfeits: the early
    /// penalty while the lock runs and a penalty is set, else nothing.
    pub open spec fn penalty_at(&self, now: i64, amount: u64) -> int {
        if now < self.user_stake.lock_until_ts && self.config.early_unstake_penalty_bps > 0 {
            early_penalty(amount, self.config.early_unstake_penalty_bps)
        } else {
            0
        }
    }

    /// Why a withdrawal of `amount` at the time `now` is refused, if it is:
    /// for its accounts, or because the penalty leaves nothing to pay out.
    pub open spec fn refusal(&self, now: i64, amount: u64) -> Option<StakeFlowError> {
        match self.refusal_on_accounts(amount) {
            Some(error) => Some(error),
            None => if self.penalty_at(now, amount) >= amount {
                Some(StakeFlowError::InvalidAmount)
            } else {
                None
            },
        }
    }

    /// The position after an accepted withdrawal of `amount` at the time
    /// `now`: settled, the principal lowered by the full amount, and the lock
    /// lifted once no principal is left.
    pub open spec fn position_after(&self, now: i64, amount: u64) -> UserStake {
        let settled = self.user_stake.settled(now, self.config.apr_bps);
        let remaining = (self.user_stake.staked_amount - amount) as u64;
        UserStake {
            staked_amount: remaining,
            lock_until_ts: if remaining == 0 {
                0
            } else {
                settled.lock_until_ts
            },
            ..settled
        }
    }

    /// What an accepted withdrawal of `amount` at the time `now` asks and
    /// announces.
    pub open spec fn outcome(&self, now: i64, amount: u64) -> UnstakeOutcome {
        let penalty = self.penalty_at(now, amount) as u64;
        let authority = Authority::Config { bump: self.config.bump };
        UnstakeOutcome {
            penalty_transfer: if penalty > 0 {
                Some(
                    TransferOrder {
                        from: StakeHolding::StakeVault,
                        to: StakeHolding::PenaltyVault,
                        authority,
                        amount: penalty,
                    },
                )
            } else {
                None
            },
            net_transfer: TransferOrder {
                from: StakeHolding::StakeVault,
                to: StakeHolding::Participant,
                authority,
                amount: (amount - penalty) as u64,
            },
            event: UnstakeEvent { owner: self.owner, amount, penalty },
        }
    }

    /// Runs the checks that do not depend on the time.
    pub fn check_accounts(&self, amount: u64) -> (result: Result<(), StakeFlowError>)
        ensures
            result == match self.refusal_on_accounts(amount) {
                Some(error) => Err::<(), StakeFlowError>(error),
                None => Ok(()),
            },
    {
        if amount == 0 {
            return Err(StakeFlowError::InvalidAmount);
        }
        if self.owner_stake_ata.owner != self.owner {
            return Err(StakeFlowError::Unauthorized);
        }
        if self.owner_stake_ata.mint != self.config.stake_mint {
            return Err(StakeFlowError::InvalidMint);
        }
        if self.stake_vault.mint != self.config.stake_mint {
            return Err(StakeFlowError::InvalidMint);
        }
        if self.penalty_vault.mint != self.config.stake_mint {
            return Err(StakeFlowError::InvalidMint);
        }
        if amount > self.user_stake.staked_amount {
            return Err(StakeFlowError::InsufficientStake);
        }
        Ok(())
    }
}

/// Withdraws `amount` of the participant's principal at the time `now`.
///
/// The position is settled first. While the lock runs, the configured share
/// of the amount is forfeited to the penalty vault and the rest is paid out;
/// once the lock has run out, all of it is paid out. The principal falls by
/// the full amount either way. A refused withdrawal leaves the position as it
/// was.
pub fn unstake(ctx: &mut Unstake, now: i64, amount: u64) -> (result: Result<
    UnstakeOutcome,
    StakeFlowError,
>)
    ensures
        match old(ctx).refusal(now, amount) {
            Some(error) => result == Err::<UnstakeOutcome, StakeFlowError>(error) && *final(ctx)
                == *old(ctx),
            None => result == Ok::<UnstakeOutcome, StakeFlowError>(old(ctx).outcome(now, amount))
                && *final(ctx) == (Unstake {
                user_stake: old(ctx).position_after(now, amount),
                ..*old(ctx)
            }),
        },
        result matches Ok(outcome) ==> {
            &&& final(ctx).user_stake.wf()
            &&& final(ctx).user_stake.staked_amount == old(ctx).user_stake.staked_amount - amount
            &&& outcome.event.penalty + outcome.net_transfer.amount == amount
            &&& outcome.net_transfer.amount > 0
            &&& outcome.net_transfer.respects_custody(old(ctx).config.bump)
            &&& outcome.penalty_transfer matches Some(order) ==> order.amount
                == outcome.event.penalty && order.respects_custody(old(ctx).config.bump)
            &&& now >= old(ctx).user_stake.lock_until_ts ==> outcome.event.penalty == 0
                && outcome.penalty_transfer is None && outcome.net_transfer.amount == amount
        },
{
    match ctx.check_accounts(amount) {
        Err(error) => {
            return Err(error);
        },
        Ok(()) => {},
    }
    let penalty_wide: u128 = if now < ctx.user_stake.lock_until_ts
        && ctx.config.early_unstake_penalty_bps > 0 {
        early_unstake_penalty(amount, ctx.config.early_unstake_penalty_bps)
    } else {
        0
    };
    if penalty_wide >= amount as u128 {
        return Err(StakeFlowError::InvalidAmount);
    }
    let penalty: u64 = penalty_wide as u64;
    let net: u64 = amount.saturating_sub(penalty);

    ctx.user_stake.settle(now, ctx.config.apr_bps);
    ctx.user_stake.staked_amount = ctx.user_stake.staked_amount.saturating_sub(amount);
    if ctx.user_stake.staked_amount == 0 {
        ctx.user_stake.lock_until_ts = 0;
    }
    let authority = Authority::Config { bump: ctx.config.bump };
    let penalty_transfer = if penalty > 0 {
        Some(
            TransferOrder {
                from: StakeHolding::StakeVault,
                to: StakeHolding::PenaltyVault,
                authority,
                amount: penalty,
            },
        )
    } else {
        None
    };
    let net_transfer = TransferOrder {
        from: StakeHolding::StakeVault,
        to: StakeHolding::Participant,
        authority,
        amount: net,
    };
    Ok(
        UnstakeOutcome {
            penalty_transfer,
            net_transfer,
            event: UnstakeEvent { owner: ctx.owner, amount, penalty },
        },
    )
}

} // verus!
