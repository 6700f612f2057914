use anchor_lang::prelude::Pubkey;
use stake_flow::instructions::initialize::{
    find_reward_mint_authority, initialize_config, initialize_config_with_bump,
    try_initialize_config,
};
use stake_flow::instructions::params::update_params;
use stake_flow::instructions::position::{close_user_stake, create_user_stake};
use stake_flow::{
    Address, CloseUserStake, Config, CreateUserStake, CreateUserStakeBumps, InitializeConfig,
    InitializeConfigBumps, MintAuthorityHandover, MintRecord, StakeFlowError, UpdateParams,
    UserStake,
};

fn who(tag: u8) -> Address {
    Address::new([tag; 32])
}

const OWNER: u8 = 1;
const ADMIN: u8 = 2;
const STAKE_MINT: u8 = 3;
const REWARD_MINT: u8 = 4;
const MINTER: u8 = 6;
const PROGRAM: u8 = 8;
const STRANGER: u8 = 9;

fn set_up(mint_authority: Option<Address>) -> InitializeConfig {
    InitializeConfig {
        program_id: who(PROGRAM),
        admin: who(ADMIN),
        stake_mint: who(STAKE_MINT),
        reward_mint: MintRecord { key: who(REWARD_MINT), mint_authority },
        config: None,
        reward_mint_authority: who(MINTER),
        bumps: InitializeConfigBumps {
            config: 254,
            stake_vault: 253,
            penalty_vault: 252,
        },
    }
}

fn recorded(apr_bps: u16, lock: i64, penalty_bps: u16, auth_bump: u8) -> Config {
    Config {
        admin: who(ADMIN),
        stake_mint: who(STAKE_MINT),
        reward_mint: who(REWARD_MINT),
        apr_bps,
        min_lock_duration: lock,
        early_unstake_penalty_bps: penalty_bps,
        bump: 254,
        stake_vault_bump: 253,
        penalty_vault_bump: 252,
        reward_mint_auth_bump: auth_bump,
    }
}

fn blank_position() -> UserStake {
    UserStake {
        owner: who(0),
        staked_amount: 0,
        pending_rewards: 0,
        last_update_ts: 0,
        lock_until_ts: 0,
        bump: 0,
    }
}

#[test]
fn record_sizes() {
    assert_eq!(Config::SIZE, 112);
    assert_eq!(UserStake::SIZE, 65);
}

#[test]
fn set_up_records_parameters_and_hands_over() {
    let mut ctx = set_up(Some(who(ADMIN)));
    let handover = initialize_config_with_bump(&mut ctx, 500, 86_400, 1_000, 77).unwrap();
    assert_eq!(
        handover,
        MintAuthorityHandover {
            mint: who(REWARD_MINT),
            current_authority: who(ADMIN),
            new_authority: who(MINTER),
        }
    );
    assert_eq!(ctx.config, Some(recorded(500, 86_400, 1_000, 77)));
    assert_eq!(ctx.admin, who(ADMIN));
    assert_eq!(ctx.reward_mint.mint_authority, Some(who(ADMIN)));
}

#[test]
fn set_up_takes_parameters_at_the_ends_of_their_ranges() {
    let mut ctx = set_up(Some(who(ADMIN)));
    initialize_config_with_bump(&mut ctx, u16::MAX, 0, 10_000, 0).unwrap();
    assert_eq!(ctx.config, Some(recorded(u16::MAX, 0, 10_000, 0)));
    let mut ctx = set_up(Some(who(ADMIN)));
    initialize_config_with_bump(&mut ctx, 0, i64::MAX, 0, 255).unwrap();
    assert_eq!(ctx.config, Some(recorded(0, i64::MAX, 0, 255)));
}

#[test]
fn set_up_with_a_negative_lock_is_refused() {
    let before = set_up(Some(who(ADMIN)));
    let mut ctx = before;
    assert_eq!(
        initialize_config_with_bump(&mut ctx, 500, -1, 1_000, 77),
        Err(StakeFlowError::InvalidAmount)
    );
    assert_eq!(ctx, before);
    assert_eq!(
        try_initialize_config(&mut ctx, 500, i64::MIN, 1_000),
        Some(Err(StakeFlowError::InvalidAmount))
    );
    assert_eq!(ctx, before);
}

#[test]
fn set_up_with_a_penalty_above_the_whole_is_refused() {
    let before = set_up(Some(who(ADMIN)));
    let mut ctx = before;
    assert_eq!(
        initialize_config_with_bump(&mut ctx, 500, 86_400, 10_001, 77),
        Err(StakeFlowError::InvalidAmount)
    );
    assert_eq!(ctx, before);
    assert_eq!(
        initialize_config(&mut ctx, u16::MAX, -5, 20_000),
        Err(StakeFlowError::InvalidAmount)
    );
    assert_eq!(ctx, before);
    assert_eq!(
        try_initialize_config(&mut ctx, 500, 86_400, u16::MAX),
        Some(Err(StakeFlowError::InvalidAmount))
    );
    assert_eq!(ctx, before);
}

#[test]
fn set_up_checks_the_mint_authority_before_the_parameters() {
    let before = set_up(Some(who(STRANGER)));
    let mut ctx = before;
    assert_eq!(
        initialize_config_with_bump(&mut ctx, 500, -1, 20_000, 77),
        Err(StakeFlowError::Unauthorized)
    );
    assert_eq!(ctx, before);
    let before = set_up(None);
    let mut ctx = before;
    assert_eq!(
        initialize_config_with_bump(&mut ctx, 500, -1, 20_000, 77),
        Err(StakeFlowError::InvalidMint)
    );
    assert_eq!(ctx, before);
}

#[test]
fn set_up_derives_the_bump_of_the_minting_address() {
    let (_, expected_bump) = Pubkey::find_program_address(
        &[b"reward_mint_authority"],
        &Pubkey::new_from_array([PROGRAM; 32]),
    );
    let mut ctx = set_up(Some(who(ADMIN)));
    let handover = try_initialize_config(&mut ctx, 500, 86_400, 1_000).unwrap().unwrap();
    assert_eq!(handover.new_authority, who(MINTER));
    assert_eq!(ctx.config, Some(recorded(500, 86_400, 1_000, expected_bump)));
}

#[test]
fn set_up_where_the_minting_address_is_known_to_exist() {
    let (_, bump) = find_reward_mint_authority(&who(PROGRAM)).unwrap();
    let mut ctx = set_up(Some(who(ADMIN)));
    let handover = initialize_config(&mut ctx, 250, 0, 10_000).unwrap();
    assert_eq!(handover.mint, who(REWARD_MINT));
    assert_eq!(handover.current_authority, who(ADMIN));
    assert_eq!(ctx.config, Some(recorded(250, 0, 10_000, bump)));
}

#[test]
fn set_up_without_a_mint_authority_is_refused() {
    let before = set_up(None);
    let mut ctx = before;
    assert_eq!(
        initialize_config_with_bump(&mut ctx, 500, 86_400, 1_000, 77),
        Err(StakeFlowError::InvalidMint)
    );
    assert_eq!(ctx, before);
    assert_eq!(
        try_initialize_config(&mut ctx, 500, 86_400, 1_000),
        Some(Err(StakeFlowError::InvalidMint))
    );
    assert_eq!(ctx, before);
}

#[test]
fn set_up_by_another_than_the_mint_authority_is_refused() {
    let before = set_up(Some(who(STRANGER)));
    let mut ctx = before;
    assert_eq!(ctx.check_accounts(), Err(StakeFlowError::Unauthorized));
    assert_eq!(
        initialize_config_with_bump(&mut ctx, 500, 86_400, 1_000, 77),
        Err(StakeFlowError::Unauthorized)
    );
    assert_eq!(ctx, before);
    assert_eq!(
        try_initialize_config(&mut ctx, 500, 86_400, 1_000),
        Some(Err(StakeFlowError::Unauthorized))
    );
    assert_eq!(ctx, before);
}

#[test]
fn update_changes_what_is_given() {
    let mut ctx = UpdateParams { admin: who(ADMIN), config: recorded(500, 86_400, 1_000, 77) };
    assert_eq!(update_params(&mut ctx, Some(750), None, None), Ok(()));
    assert_eq!(ctx.config, recorded(750, 86_400, 1_000, 77));
    assert_eq!(update_params(&mut ctx, None, Some(0), None), Ok(()));
    assert_eq!(ctx.config, recorded(750, 0, 1_000, 77));
    assert_eq!(update_params(&mut ctx, None, None, Some(10_000)), Ok(()));
    assert_eq!(ctx.config, recorded(750, 0, 10_000, 77));
    assert_eq!(update_params(&mut ctx, Some(0), Some(i64::MAX), Some(0)), Ok(()));
    assert_eq!(ctx.config, recorded(0, i64::MAX, 0, 77));
}

#[test]
fn update_of_nothing_changes_nothing() {
    let before = UpdateParams { admin: who(ADMIN), config: recorded(500, 86_400, 1_000, 77) };
    let mut ctx = before;
    assert_eq!(update_params(&mut ctx, None, None, None), Ok(()));
    assert_eq!(ctx, before);
}

#[test]
fn update_by_another_than_the_admin_is_refused() {
    let before = UpdateParams { admin: who(STRANGER), config: recorded(500, 86_400, 1_000, 77) };
    let mut ctx = before;
    assert_eq!(update_params(&mut ctx, Some(750), None, None), Err(StakeFlowError::Unauthorized));
    assert_eq!(ctx, before);
}

#[test]
fn update_to_a_negative_lock_is_refused() {
    let before = UpdateParams { admin: who(ADMIN), config: recorded(500, 86_400, 1_000, 77) };
    let mut ctx = before;
    assert_eq!(
        update_params(&mut ctx, Some(750), Some(-1), Some(5)),
        Err(StakeFlowError::InvalidAmount)
    );
    assert_eq!(ctx, before);
}

#[test]
fn update_to_a_penalty_above_the_whole_is_refused() {
    let before = UpdateParams { admin: who(ADMIN), config: recorded(500, 86_400, 1_000, 77) };
    let mut ctx = before;
    assert_eq!(
        update_params(&mut ctx, Some(750), Some(10), Some(10_001)),
        Err(StakeFlowError::InvalidAmount)
    );
    assert_eq!(ctx, before);
}

#[test]
fn open_position_is_empty() {
    let mut ctx = CreateUserStake {
        owner: who(OWNER),
        user_stake: None,
        bumps: CreateUserStakeBumps { user_stake: 249 },
    };
    assert_eq!(create_user_stake(&mut ctx, 1_700_000_000), Ok(()));
    assert_eq!(
        ctx.user_stake,
        Some(UserStake {
            owner: who(OWNER),
            staked_amount: 0,
            pending_rewards: 0,
            last_update_ts: 1_700_000_000,
            lock_until_ts: 0,
            bump: 249,
        })
    );
    assert_eq!(ctx.owner, who(OWNER));
}

#[test]
fn close_of_an_empty_position_removes_it() {
    let mut ctx = CloseUserStake {
        owner: who(OWNER),
        user_stake: Some(UserStake { owner: who(OWNER), last_update_ts: 5, ..blank_position() }),
    };
    assert_eq!(close_user_stake(&mut ctx), Ok(()));
    assert_eq!(ctx.user_stake, None);
    assert_eq!(ctx.owner, who(OWNER));
}

#[test]
fn close_with_principal_left_is_refused() {
    let before = CloseUserStake {
        owner: who(OWNER),
        user_stake: Some(UserStake { owner: who(OWNER), staked_amount: 1, ..blank_position() }),
    };
    let mut ctx = before;
    assert_eq!(close_user_stake(&mut ctx), Err(StakeFlowError::NotClosable));
    assert_eq!(ctx, before);
}

#[test]
fn close_with_rewards_left_is_refused() {
    let before = CloseUserStake {
        owner: who(OWNER),
        user_stake: Some(UserStake { owner: who(OWNER), pending_rewards: 1, ..blank_position() }),
    };
    let mut ctx = before;
    assert_eq!(close_user_stake(&mut ctx), Err(StakeFlowError::NotClosable));
    assert_eq!(ctx, before);
}

#[test]
fn close_by_another_than_the_owner_is_refused() {
    let before = CloseUserStake {
        owner: who(STRANGER),
        user_stake: Some(UserStake { owner: who(OWNER), ..blank_position() }),
    };
    let mut ctx = before;
    assert_eq!(close_user_stake(&mut ctx), Err(StakeFlowError::Unauthorized));
    assert_eq!(ctx, before);
    let with_balance = CloseUserStake {
        owner: who(STRANGER),
        user_stake: Some(UserStake { owner: who(OWNER), staked_amount: 9, ..blank_position() }),
    };
    let mut ctx = with_balance;
    assert_eq!(close_user_stake(&mut ctx), Err(StakeFlowError::Unauthorized));
    assert_eq!(ctx, with_balance);
}

#[test]
fn position_opens_stakes_empties_and_closes() {
    let mut opening = CreateUserStake {
        owner: who(OWNER),
        user_stake: None,
        bumps: CreateUserStakeBumps { user_stake: 249 },
    };
    create_user_stake(&mut opening, 10).unwrap();
    let mut closing = CloseUserStake { owner: who(OWNER), user_stake: opening.user_stake };
    assert_eq!(close_user_stake(&mut closing), Ok(()));
    assert_eq!(closing.user_stake, None);
}
