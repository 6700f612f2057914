//! Setting up the configuration, once, and taking over the right to mint
//! rewards.

use crate::accounts::InitializeConfig;
use crate::address::{found_program_address, try_find_program_address, Address};
use crate::error::StakeFlowError;
use crate::ledger::MintAuthorityHandover;
use crate::state::Config;
use vstd::pervasive::unreached;
use vstd::prelude::*;
use vstd::string::StringSliceAdditionalSpecFns;

verus! {

/// The seeds of the address under which the program mints rewards, before the
/// bump seed.
pub open spec fn reward_mint_authority_seeds() -> Seq<Seq<u8>> {
    seq!["reward_mint_authority".spec_bytes()]
}

/// The reward-minting address of the program `program_id` with its bump seed,
/// where one can be derived.
pub open spec fn reward_mint_authority_of(program_id: Address) -> Option<(Seq<u8>, u8)> {
    found_program_address(reward_mint_authority_seeds(), program_id@)
}

/// Derives the reward-minting address of the program `program_id` and its
/// bump seed.
pub fn find_reward_mint_authority(program_id: &Address) -> (found: Option<(Address, u8)>)
    ensures
        match found {
            Some((address, bump)) => reward_mint_authority_of(*program_id) == Some(
                (address@, bump),
            ),
            None => reward_mint_authority_of(*program_id) is None,
        },
{
    let mut seeds: Vec<Vec<u8>> = Vec::new();
    seeds.push("reward_mint_authority".as_bytes_vec());
    proof {
        assert(seeds@[0].deep_view() =~= reward_mint_authority_seeds()[0]);
        assert(seeds.deep_view() =~= reward_mint_authority_seeds());
    }
    try_find_program_address(&seeds, program_id)
}

impl InitializeConfig {
    /// Why the set-up is refused whatever the parameters, if it is: the
    /// reward asset must have a mint authority, and it must be the
    /// administrator who signed.
    pub open spec fn refusal_on_accounts(&self) -> Option<StakeFlowError> {
        match self.reward_mint.mint_authority {
            None => Some(StakeFlowError::InvalidMint),
            Some(current) => if current != self.admin {
                Some(StakeFlowError::Unauthorized)
            } else {
                None
            },
        }
    }

    /// Why the set-up with the given parameters is refused, if it is: for its
    /// accounts, or because the lock would last a negative time or the
    /// penalty would take more than the whole.
    pub open spec fn refusal(
        &self,
        min_lock_duration: i64,
        early_unstake_penalty_bps: u16,
    ) -> Option<StakeFlowError> {
        match self.refusal_on_accounts() {
            Some(error) => Some(error),
            None => if min_lock_duration < 0 || early_unstake_penalty_bps > 10_000 {
                Some(StakeFlowError::InvalidAmount)
            } else {
                None
            },
        }
    }

    /// The configuration that an accepted set-up records.
    pub open spec fn configured(
        &self,
        apr_bps: u16,
        min_lock_duration: i64,
        early_unstake_penalty_bps: u16,
        reward_mint_auth_bump: u8,
    ) -> Config {
        Config {
            admin: self.admin,
            stake_mint: self.stake_mint,
            reward_mint: self.reward_mint.key,
            apr_bps,
            min_lock_duration,
            early_unstake_penalty_bps,
            bump: self.bumps.config,
            stake_vault_bump: self.bumps.stake_vault,
            penalty_vault_bump: self.bumps.penalty_vault,
            reward_mint_auth_bump,
        }
    }

    /// The hand-over that an accepted set-up asks of the ledger: the right to
    /// mint rewards passes from the administrator to the program.
    pub open spec fn handover(&self) -> MintAuthorityHandover {
        MintAuthorityHandover {
            mint: self.reward_mint.key,
            current_authority: self.admin,
            new_authority: self.reward_mint_authority,
        }
    }

    /// Runs the checks on the reward asset's mint authority.
    pub fn check_accounts(&self) -> (result: Result<(), StakeFlowError>)
        ensures
            result == match self.refusal_on_accounts() {
                Some(error) => Err::<(), StakeFlowError>(error),
                None => Ok(()),
            },
    {
        match self.reward_mint.mint_authority {
            Some(current) => {
                if current != self.admin {
                    return Err(StakeFlowError::Unauthorized);
                }
            },
            None => {
                return Err(StakeFlowError::InvalidMint);
            },
        }
        Ok(())
    }
}

/// Sets up the configuration, where there is none yet, with the given
/// parameters and the bump seed `reward_mint_auth_bump` of the program's
/// reward-minting address.
///
/// The set-up is accepted only if the administrator holds the right to mint
/// rewards and the parameters are in range: a lock of no negative duration,
/// and a penalty of no more than the whole. The parameters are then recorded,
/// and the hand-over of the right to mint to the program is asked of the
/// ledger. A refused set-up records nothing.
pub fn initialize_config_with_bump(
    ctx: &mut InitializeConfig,
    apr_bps: u16,
    min_lock_duration: i64,
    early_unstake_penalty_bps: u16,
    reward_mint_auth_bump: u8,
) -> (result: Result<MintAuthorityHandover, StakeFlowError>)
    requires
        old(ctx).config is None,
    ensures
        match old(ctx).refusal(min_lock_duration, early_unstake_penalty_bps) {
            Some(error) => result == Err::<MintAuthorityHandover, StakeFlowError>(error)
                && *final(ctx) == *old(ctx),
            None => result == Ok::<MintAuthorityHandover, StakeFlowError>(old(ctx).handover())
                && *final(ctx) == (InitializeConfig {
                config: Some(old(ctx).configured(
                    apr_bps,
                    min_lock_duration,
                    early_unstake_penalty_bps,
                    reward_mint_auth_bump,
                )),
                ..*old(ctx)
            }),
        },
        result is Ok ==> final(ctx).config.unwrap().wf(),
{
    match ctx.check_accounts() {
        Err(error) => {
            return Err(error);
        },
        Ok(()) => {},
    }
    if min_lock_duration < 0 || early_unstake_penalty_bps > 10_000 {
        return Err(StakeFlowError::InvalidAmount);
    }
    ctx.config = Some(
        Config {
            admin: ctx.admin,
            stake_mint: ctx.stake_mint,
            reward_mint: ctx.reward_mint.key,
            apr_bps,
            min_lock_duration,
            early_unstake_penalty_bps,
            bump: ctx.bumps.config,
            stake_vault_bump: ctx.bumps.stake_vault,
            penalty_vault_bump: ctx.bumps.penalty_vault,
            reward_mint_auth_bump,
        },
    );
    Ok(
        MintAuthorityHandover {
            mint: ctx.reward_mint.key,
            current_authority: ctx.admin,
            new_authority: ctx.reward_mint_authority,
        },
    )
}

/// Sets up the configuration, where there is none yet, with the given
/// parameters, for a program whose reward-minting address can be derived.
/// The bump seed of that address is derived here and recorded with the rest;
/// see [`initialize_config_with_bump`] for what is recorded and asked.
pub fn initialize_config(
    ctx: &mut InitializeConfig,
    apr_bps: u16,
    min_lock_duration: i64,
    early_unstake_penalty_bps: u16,
) -> (result: Result<MintAuthorityHandover, StakeFlowError>)
    requires
        old(ctx).config is None,
        reward_mint_authority_of(old(ctx).program_id) is Some,
    ensures
        match old(ctx).refusal(min_lock_duration, early_unstake_penalty_bps) {
            Some(error) => result == Err::<MintAuthorityHandover, StakeFlowError>(error)
                && *final(ctx) == *old(ctx),
            None => result == Ok::<MintAuthorityHandover, StakeFlowError>(old(ctx).handover())
                && *final(ctx) == (InitializeConfig {
                config: Some(old(ctx).configured(
                    apr_bps,
                    min_lock_duration,
                    early_unstake_penalty_bps,
                    reward_mint_authority_of(old(ctx).program_id).unwrap().1,
                )),
                ..*old(ctx)
            }),
        },
        result is Ok ==> final(ctx).config.unwrap().wf(),
{
    let reward_mint_auth_bump: u8 = match find_reward_mint_authority(&ctx.program_id) {
        Some((_, bump)) => bump,
        None => unreached(),
    };
    initialize_config_with_bump(
        ctx,
        apr_bps,
        min_lock_duration,
        early_unstake_penalty_bps,
        reward_mint_auth_bump,
    )
}

/// Sets up the configuration as [`initialize_config`] does, for any program:
/// where no reward-minting address can be derived for it, nothing is recorded
/// and `None` is returned.
pub fn try_initialize_config(
    ctx: &mut InitializeConfig,
    apr_bps: u16,
    min_lock_duration: i64,
    early_unstake_penalty_bps: u16,
) -> (attempt: Option<Result<MintAuthorityHandover, StakeFlowError>>)
    requires
        old(ctx).config is None,
    ensures
        match reward_mint_authority_of(old(ctx).program_id) {
            None => attempt is None && *final(ctx) == *old(ctx),
            Some((_, bump)) => match old(ctx).refusal(
                min_lock_duration,
                early_unstake_penalty_bps,
            ) {
                Some(error) => attempt == Some(
                    Err::<MintAuthorityHandover, StakeFlowError>(error),
                ) && *final(ctx) == *old(ctx),
                None => attempt == Some(
                    Ok::<MintAuthorityHandover, StakeFlowError>(old(ctx).handover()),
                ) && *final(ctx) == (InitializeConfig {
                    config: Some(old(ctx).configured(
                        apr_bps,
                        min_lock_duration,
                        early_unstake_penalty_bps,
                        bump,
                    )),
                    ..*old(ctx)
                }),
            },
        },
        attempt matches Some(Ok(_)) ==> final(ctx).config.unwrap().wf(),
{
    if find_reward_mint_authority(&ctx.program_id).is_none() {
        return None;
    }
    Some(initialize_config(ctx, apr_bps, min_lock_duration, early_unstake_penalty_bps))
}

} // verus!
