//! What the program asks of the ledger: transfers between holdings of the
//! stake asset, the minting of rewards, and the hand-over of the right to
//! mint. The program decides and signs; the ledger moves the funds.

use crate::address::Address;
use vstd::prelude::*;
use vstd::string::StringSliceAdditionalSpecFns;

verus! {

/// The holdings of the stake asset that an operation moves funds between.
#[derive(Clone, Copy, Debug, PartialEq, Eq, Structural)]
pub enum StakeHolding {
    /// The participant's own holding.
    Participant,
    /// The vault that keeps the deposits.
    StakeVault,
    /// The vault that keeps what early withdrawals forfeit.
    PenaltyVault,
}

/// Under whose authority the ledger is asked to act.
#[derive(Clone, Copy, Debug, PartialEq, Eq, Structural)]
pub enum Authority {
    /// The participant, who signed the request.
    Participant,
    /// The program, signing under the address of its configuration record.
    Config { bump: u8 },
    /// The program, signing under its reward-minting address.
    RewardMint { bump: u8 },
}

/// The seeds of a program-derived address: the bytes of `label`, then the
/// bump seed.
pub open spec fn labelled_seeds(label: &str, bump: u8) -> Seq<Seq<u8>> {
    seq![label.spec_bytes(), seq![bump]]
}

/// Builds [`labelled_seeds`].
fn build_labelled_seeds(label: &str, bump: u8) -> (seeds: Vec<Vec<u8>>)
    ensures
        seeds.deep_view() == labelled_seeds(label, bump),
{
    let mut bump_seed: Vec<u8> = Vec::new();
    bump_seed.push(bump);
    let mut seeds: Vec<Vec<u8>> = Vec::new();
    seeds.push(label.as_bytes_vec());
    seeds.push(bump_seed);
    proof {
        let expected = labelled_seeds(label, bump);
        assert(seeds@[0].deep_view() =~= expected[0]);
        assert(seeds@[1].deep_view() =~= expected[1]);
        assert(seeds.deep_view() =~= expected);
    }
    seeds
}

impl Authority {
    /// The seeds under which the program signs for this authority; none for
    /// the participant, whose own signature stands.
    pub open spec fn seeds(&self) -> Seq<Seq<u8>> {
        match *self {
            Authority::Participant => Seq::empty(),
            Authority::Config { bump } => labelled_seeds("config", bump),
            Authority::RewardMint { bump } => labelled_seeds("reward_mint_authority", bump),
        }
    }

    /// Whether the program itself signs.
    pub open spec fn is_program(&self) -> bool {
        !(*self is Participant)
    }

    /// The seeds to hand to the ledger with a request under this authority.
    pub fn signer_seeds(&self) -> (seeds: Vec<Vec<u8>>)
        ensures
            seeds.deep_view() == self.seeds(),
    {
        match self {
            Authority::Participant => {
                let seeds: Vec<Vec<u8>> = Vec::new();
                assert(seeds.deep_view() =~= Seq::<Seq<u8>>::empty());
                seeds
            },
            Authority::Config { bump } => build_labelled_seeds("config", *bump),
            Authority::RewardMint { bump } => build_labelled_seeds("reward_mint_authority", *bump),
        }
    }
}

/// A request to move `amount` units of the stake asset.
#[derive(Clone, Copy, Debug, PartialEq, Eq, Structural)]
pub struct TransferOrder {
    pub from: StakeHolding,
    pub to: StakeHolding,
    pub authority: Authority,
    pub amount: u64,
}

impl TransferOrder {
    /// Funds leave a vault only under the program's signature for the
    /// configuration record whose bump seed is `config_bump`, and the
    /// participant's signature moves nothing but the participant's own
    /// holding.
    pub open spec fn respects_custody(&self, config_bump: u8) -> bool {
        match self.from {
            StakeHolding::Participant => self.authority == Authority::Participant,
            _ => self.authority == (Authority::Config { bump: config_bump }),
        }
    }
}

/// A request to mint `amount` units of the reward asset into the
/// participant's reward holding.
#[derive(Clone, Copy, Debug, PartialEq, Eq, Structural)]
pub struct MintOrder {
    pub authority: Authority,
    pub amount: u64,
}

/// A request to pass the right to mint the asset `mint` from
/// `current_authority` to `new_authority`.
#[derive(Clone, Copy, Debug, PartialEq, Eq)]
pub struct MintAuthorityHandover {
    pub mint: Address,
    pub current_authority: Address,
    pub new_authority: Address,
}

} // verus!
