//! Change of the protocol's parameters by its administrator.

use crate::accounts::UpdateParams;
use crate::error::StakeFlowError;
use crate::state::Config;
use vstd::prelude::*;

verus! {

impl UpdateParams {
    /// Why a change to the given parameters is refused, if it is: only the
    /// administrator may ask, the lock may last no negative time, and the
    /// penalty may take no more than the whole.
    pub open spec fn refusal(
        &self,
        min_lock_duration: Option<i64>,
        early_unstake_penalty_bps: Option<u16>,
    ) -> Option<StakeFlowError> {
        if self.admin != self.config.admin {
            Some(StakeFlowError::Unauthorized)
        } else if min_lock_duration matches Some(duration) && duration < 0 {
            Some(StakeFlowError::InvalidAmount)
        } else if early_unstake_penalty_bps matches Some(penalty) && penalty > 10_000 {
            Some(StakeFlowError::InvalidAmount)
        } else {
            None
        }
    }

    /// The configuration after an accepted change: each parameter that is
    /// given replaces the old one, and each that is not stays.
    pub open spec fn updated(
        &self,
        apr_bps: Option<u16>,
        min_lock_duration: Option<i64>,
        early_unstake_penalty_bps: Option<u16>,
    ) -> Config {
        Config {
            apr_bps: match apr_bps {
                Some(rate) => rate,
                None => self.config.apr_bps,
            },
            min_lock_duration: match min_lock_duration {
                Some(duration) => duration,
                None => self.config.min_lock_duration,
            },
            early_unstake_penalty_bps: match early_unstake_penalty_bps {
                Some(penalty) => penalty,
                None => self.config.early_unstake_penalty_bps,
            },
            ..self.config
        }
    }
}

/// Changes the parameters that are given and leaves the others as they are.
///
/// Only the recorded administrator may change them. A change that is refused
/// for one parameter changes none.
pub fn update_params(
    ctx: &mut UpdateParams,
    apr_bps: Option<u16>,
    min_lock_duration: Option<i64>,
    early_unstake_penalty_bps: Option<u16>,
) -> (result: Result<(), StakeFlowError>)
    ensures
        match old(ctx).refusal(min_lock_duration, early_unstake_penalty_bps) {
            Some(error) => result == Err::<(), StakeFlowError>(error) && *final(ctx) == *old(ctx),
            None => result == Ok::<(), StakeFlowError>(()) && *final(ctx) == (UpdateParams {
                config: old(ctx).updated(apr_bps, min_lock_duration, early_unstake_penalty_bps),
                ..*old(ctx)
            }),
        },
        old(ctx).config.wf() ==> final(ctx).config.wf(),
        result is Ok && min_lock_duration is Some && early_unstake_penalty_bps is Some
            ==> final(ctx).config.wf(),
{
    if ctx.admin != ctx.config.admin {
        return Err(StakeFlowError::Unauthorized);
    }
    if let Some(duration) = min_lock_duration {
        if duration < 0 {
            return Err(StakeFlowError::InvalidAmount);
        }
    }
    if let Some(penalty) = early_unstake_penalty_bps {
        if penalty > 10_000 {
            return Err(StakeFlowError::InvalidAmount);
        }
    }
    if let Some(rate) = apr_bps {
        ctx.config.apr_bps = rate;
    }
    if let Some(duration) = min_lock_duration {
        ctx.config.min_lock_duration = duration;
    }
    if let Some(penalty) = early_unstake_penalty_bps {
        ctx.config.early_unstake_penalty_bps = penalty;
    }
    Ok(())
}

} // verus!
