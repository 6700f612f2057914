//! The records that the program keeps: the protocol configuration and one
//! position per participant.

use crate::accrual::{accrued, calc_rewards_between, BPS_PER_WHOLE};
use crate::address::Address;
use vstd::prelude::*;

verus! {

/// The sum of two balances, held at the largest balance where it would pass it.
pub open spec fn saturating_sum(a: u64, b: u64) -> u64 {
    if a + b > u64::MAX {
        u64::MAX
    } else {
        (a + b) as u64
    }
}

/// The time `duration` seconds after `time`, held at the ends of the range of
/// times where it would leave it.
pub open spec fn saturating_time(time: i64, duration: i64) -> i64 {
    if time + duration > i64::MAX {
        i64::MAX
    } else if time + duration < i64::MIN {
        i64::MIN
    } else {
        (time + duration) as i64
    }
}

/// Computes [`saturating_time`].
pub fn time_after(time: i64, duration: i64) -> (end: i64)
    ensures
        end == saturating_time(time, duration),
{
    match time.checked_add(duration) {
        Some(end) => end,
        None => if duration > 0 {
            i64::MAX
        } else {
            i64::MIN
        },
    }
}

/// The protocol's parameters, and the bump seeds of the addresses that the
/// program derives for itself.
#[derive(Clone, Copy, Debug, PartialEq, Eq)]
pub struct Config {
    /// Who may change the parameters.
    pub admin: Address,
    /// The asset that participants deposit.
    pub stake_mint: Address,
    /// The asset that rewards are paid in.
    pub reward_mint: Address,
    /// The yearly yield in basis points.
    pub apr_bps: u16,
    /// For how many seconds a deposit locks the position.
    pub min_lock_duration: i64,
    /// The share of an early withdrawal that is forfeited, in basis points.
    pub early_unstake_penalty_bps: u16,
    /// Bump seed of this record's own address, under which the program
    /// signs for its vaults.
    pub bump: u8,
    /// Bump seed of the stake vault's address.
    pub stake_vault_bump: u8,
    /// Bump seed of the penalty vault's address.
    pub penalty_vault_bump: u8,
    /// Bump seed of the address under which the program mints rewards.
    pub reward_mint_auth_bump: u8,
}

impl Config {
    /// Bytes that the record takes in storage.
    pub const SIZE: usize = 32 + 32 + 32 + 2 + 8 + 2 + 1 + 1 + 1 + 1;

    /// The parameters are in range: the lock lasts no negative time and the
    /// penalty takes no more than the whole.
    pub open spec fn wf(&self) -> bool {
        &&& self.min_lock_duration >= 0
        &&& self.early_unstake_penalty_bps <= BPS_PER_WHOLE
    }
}

/// One participant's position.
#[derive(Clone, Copy, Debug, PartialEq, Eq)]
pub struct UserStake {
    /// The participant.
    pub owner: Address,
    /// Principal held for the participant in the stake vault.
    pub staked_amount: u64,
    /// Rewards settled and not yet claimed.
    pub pending_rewards: u64,
    /// When rewards were last settled.
    pub last_update_ts: i64,
    /// Until when a withdrawal pays the penalty; zero while no principal is
    /// held.
    pub lock_until_ts: i64,
    /// Bump seed of this record's address.
    pub bump: u8,
}

impl UserStake {
    /// Bytes that the record takes in storage.
    pub const SIZE: usize = 32 + 8 + 8 + 8 + 8 + 1;

    /// A position without principal carries no lock.
    pub open spec fn wf(&self) -> bool {
        self.staked_amount == 0 ==> self.lock_until_ts == 0
    }

    /// The position as a participant opens it at the time `now`.
    pub open spec fn opened(owner: Address, now: i64, bump: u8) -> UserStake {
        UserStake {
            owner,
            staked_amount: 0,
            pending_rewards: 0,
            last_update_ts: now,
            lock_until_ts: 0,
            bump,
        }
    }

    /// What the position has earned since its last settlement, at the time
    /// `now` and the yearly rate `apr_bps`.
    pub open spec fn accrued_at(&self, now: i64, apr_bps: u16) -> u64 {
        accrued(self.staked_amount, now - self.last_update_ts, apr_bps)
    }

    /// The unclaimed rewards once those earned up to `now` are added.
    pub open spec fn rewards_at(&self, now: i64, apr_bps: u16) -> u64 {
        saturating_sum(self.pending_rewards, self.accrued_at(now, apr_bps))
    }

    /// The position after settlement at the time `now`: the rewards earned
    /// since the last settlement are folded in, and the clock moves to `now`.
    pub open spec fn settled(&self, now: i64, apr_bps: u16) -> UserStake {
        UserStake {
            pending_rewards: self.rewards_at(now, apr_bps),
            last_update_ts: now,
            ..*self
        }
    }

    /// Settles the position at the time `now`.
    pub fn settle(&mut self, now: i64, apr_bps: u16)
        ensures
            *final(self) == old(self).settled(now, apr_bps),
    {
        let accrued = calc_rewards_between(self.staked_amount, self.last_update_ts, now, apr_bps);
        self.pending_rewards = self.pending_rewards.saturating_add(accrued);
        self.last_update_ts = now;
    }
}

/// The record that stands at the address under which the program mints
/// rewards. It holds nothing: only its address matters.
#[derive(Clone, Copy, Debug, PartialEq, Eq, Structural)]
pub struct RewardMintAuthority {}

} // verus!
