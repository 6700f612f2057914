//! What each operation is handed: the records it works on, and of the
//! ledger's holdings and assets the bindings that it checks.

use crate::address::Address;
use crate::state::{Config, UserStake};
use vstd::prelude::*;

verus! {

/// A holding on the ledger, as far as the program looks at it: who owns it
/// and which asset it holds.
#[derive(Clone, Copy, Debug, PartialEq, Eq)]
pub struct Holding {
    pub owner: Address,
    pub mint: Address,
}

/// An asset on the ledger, as far as the program looks at it: its identity
/// and who, if anyone, may mint it.
#[derive(Clone, Copy, Debug, PartialEq, Eq)]
pub struct MintRecord {
    pub key: Address,
    pub mint_authority: Option<Address>,
}

/// The bump seeds of the addresses of the configuration record and of the two
/// vaults, as they were derived when the records were made.
#[derive(Clone, Copy, Debug, PartialEq, Eq, Structural)]
pub struct InitializeConfigBumps {
    pub config: u8,
    pub stake_vault: u8,
    pub penalty_vault: u8,
}

/// What setting up the configuration works on.
#[derive(Clone, Copy, Debug, PartialEq, Eq)]
pub struct InitializeConfig {
    /// The program's own identity.
    pub program_id: Address,
    /// Who signed, and becomes the administrator.
    pub admin: Address,
    /// The asset to be deposited.
    pub stake_mint: Address,
    /// The asset to pay rewards in.
    pub reward_mint: MintRecord,
    /// The configuration record: none before the set-up, the recorded one
    /// after it.
    pub config: Option<Config>,
    /// The address under which the program is to mint rewards.
    pub reward_mint_authority: Address,
    pub bumps: InitializeConfigBumps,
}

/// The bump seed of the address that is derived when a position is opened.
#[derive(Clone, Copy, Debug, PartialEq, Eq, Structural)]
pub struct CreateUserStakeBumps {
    pub user_stake: u8,
}

/// What opening a position works on.
#[derive(Clone, Copy, Debug, PartialEq, Eq)]
pub struct CreateUserStake {
    /// The participant, who signed.
    pub owner: Address,
    /// The participant's position: none before it is opened, the opened one
    /// after.
    pub user_stake: Option<UserStake>,
    pub bumps: CreateUserStakeBumps,
}

/// What a deposit works on.
#[derive(Clone, Copy, Debug, PartialEq, Eq)]
pub struct Stake {
    /// The participant, who signed.
    pub owner: Address,
    pub config: Config,
    /// The vault that takes the deposit.
    pub stake_vault: Holding,
    /// The holding that the deposit comes from.
    pub owner_stake_ata: Holding,
    /// The participant's position.
    pub user_stake: UserStake,
}

/// What a withdrawal works on.
#[derive(Clone, Copy, Debug, PartialEq, Eq)]
pub struct Unstake {
    /// The participant, who signed.
    pub owner: Address,
    pub config: Config,
    /// The vault that the withdrawal comes from.
    pub stake_vault: Holding,
    /// The holding that the withdrawal goes to.
    pub owner_stake_ata: Holding,
    /// The participant's position.
    pub user_stake: UserStake,
    /// The vault that takes what is forfeited.
    pub penalty_vault: Holding,
}

/// What a claim of rewards works on.
#[derive(Clone, Copy, Debug, PartialEq, Eq)]
pub struct ClaimRewards {
    /// The participant, who signed.
    pub owner: Address,
    pub config: Config,
    /// The participant's position.
    pub user_stake: UserStake,
    /// The address under which the program mints rewards.
    pub reward_mint_authority: Address,
    /// The asset that the rewards are paid in.
    pub reward_mint: MintRecord,
    /// The holding that the rewards go to.
    pub owner_reward_ata: Holding,
}

/// What a change of parameters works on.
#[derive(Clone, Copy, Debug, PartialEq, Eq)]
pub struct UpdateParams {
    /// Who signed.
    pub admin: Address,
    pub config: Config,
}

/// What closing a position works on.
#[derive(Clone, Copy, Debug, PartialEq, Eq)]
pub struct CloseUserStake {
    /// Who signed, and gets the record's storage back.
    pub owner: Address,
    /// The position to close: it is gone once closing is accepted.
    pub user_stake: Option<UserStake>,
}

} // verus!
