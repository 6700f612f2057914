//! A custodial staking ledger: participants deposit an asset into a vault that
//! only the program controls, earn rewards at a fixed yearly rate, pay a
//! penalty for withdrawing while locked, and are paid their rewards in newly
//! minted units.
//!
//! The library decides; the ledger acts. Each operation takes the records it
//! works on and the time, changes the records, and returns what is to be asked
//! of the ledger and announced.

pub mod accounts;
pub mod accrual;
pub mod address;
pub mod error;
pub mod events;
pub mod instructions;
pub mod laws;
pub mod ledger;
pub mod state;

pub use crate::accounts::{
    ClaimRewards, CloseUserStake, CreateUserStake, CreateUserStakeBumps, Holding,
    InitializeConfig, InitializeConfigBumps, MintRecord, Stake, Unstake, UpdateParams,
};
pub use crate::accrual::{
    calc_rewards, calc_rewards_between, calc_rewards_over, ACCRUAL_DIVISOR, BPS_PER_WHOLE,
    SECONDS_PER_YEAR,
};
pub use crate::address::Address;
pub use crate::error::StakeFlowError;
pub use crate::events::{ClaimEvent, StakeEvent, UnstakeEvent};
pub use crate::instructions::claim::{claim_rewards, ClaimOutcome};
pub use crate::instructions::initialize::{
    find_reward_mint_authority, initialize_config, initialize_config_with_bump,
    try_initialize_config,
};
pub use crate::instructions::params::update_params;
pub use crate::instructions::position::{close_user_stake, create_user_stake};
pub use crate::instructions::stake::{stake, StakeOutcome};
pub use crate::instructions::unstake::{early_unstake_penalty, unstake, UnstakeOutcome};
pub use crate::ledger::{Authority, MintAuthorityHandover, MintOrder, StakeHolding, TransferOrder};
pub use crate::state::{time_after, Config, RewardMintAuthority, UserStake};
