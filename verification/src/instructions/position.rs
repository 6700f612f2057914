//! Opening and closing a participant's position. A participant has no
//! position until one is opened, and none again once it is closed.

use crate::accounts::{CloseUserStake, CreateUserStake};
use crate::error::StakeFlowError;
use crate::state::UserStake;
use vstd::prelude::*;

verus! {

/// Opens the position of a participant who has none, at the time `now`: it
/// holds nothing, owes nothing, and carries no lock. This is never refused.
pub fn create_user_stake(ctx: &mut CreateUserStake, now: i64) -> (result: Result<
    (),
    StakeFlowError,
>)
    requires
        old(ctx).user_stake is None,
    ensures
        result is Ok,
        *final(ctx) == (CreateUserStake {
            user_stake: Some(UserStake::opened(old(ctx).owner, now, old(ctx).bumps.user_stake)),
            ..*old(ctx)
        }),
        final(ctx).user_stake.unwrap().wf(),
{
    ctx.user_stake = Some(
        UserStake {
            owner: ctx.owner,
            staked_amount: 0,
            pending_rewards: 0,
            last_update_ts: now,
            lock_until_ts: 0,
            bump: ctx.bumps.user_stake,
        },
    );
    Ok(())
}

impl CloseUserStake {
    /// Why closing the position `position` is refused, if it is: only its
    /// owner may close it, and only once it holds no principal and no
    /// unclaimed rewards.
    pub open spec fn refusal(&self, position: UserStake) -> Option<StakeFlowError> {
        if position.owner != self.owner {
            Some(StakeFlowError::Unauthorized)
        } else if !(position.staked_amount == 0 && position.pending_rewards == 0) {
            Some(StakeFlowError::NotClosable)
        } else {
            None
        }
    }
}

/// Closes the participant's position: where closing is accepted, the record
/// is gone; where it is refused, the record stays as it was.
pub fn close_user_stake(ctx: &mut CloseUserStake) -> (result: Result<(), StakeFlowError>)
    requires
        old(ctx).user_stake is Some,
    ensures
        match old(ctx).refusal(old(ctx).user_stake.unwrap()) {
            Some(error) => result == Err::<(), StakeFlowError>(error) && *final(ctx) == *old(ctx),
            None => result == Ok::<(), StakeFlowError>(()) && *final(ctx) == (CloseUserStake {
                user_stake: None,
                ..*old(ctx)
            }),
        },
        old(ctx).user_stake.unwrap().owner == old(ctx).owner ==> {
            let position = old(ctx).user_stake.unwrap();
            if position.staked_amount == 0 && position.pending_rewards == 0 {
                result is Ok && final(ctx).user_stake is None
            } else {
                result == Err::<(), StakeFlowError>(StakeFlowError::NotClosable)
            }
        },
{
    let position = match ctx.user_stake {
        Some(position) => position,
        None => vstd::pervasive::unreached(),
    };
    if position.owner != ctx.owner {
        return Err(StakeFlowError::Unauthorized);
    }
    if !(position.staked_amount == 0 && position.pending_rewards == 0) {
        return Err(StakeFlowError::NotClosable);
    }
    ctx.user_stake = None;
    Ok(())
}

} // verus!
