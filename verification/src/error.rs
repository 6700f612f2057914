//! Why an operation is refused.

use vstd::prelude::*;

verus! {

/// The reasons for which an operation is refused. A refused operation changes
/// nothing.
#[derive(Clone, Copy, Debug, PartialEq, Eq, Structural)]
pub enum StakeFlowError {
    /// The caller or an authority is not the one the operation needs.
    Unauthorized,
    /// A holding or a vault is of the wrong asset type, or the reward asset
    /// has no mint authority.
    InvalidMint,
    /// More is withdrawn than the position holds.
    InsufficientStake,
    /// An amount of zero, a withdrawal that the penalty consumes, nothing to
    /// claim, or a parameter out of range.
    InvalidAmount,
    /// The position still holds principal or unclaimed rewards.
    NotClosable,
}

impl StakeFlowError {
    /// The text shown to the caller for this error.
    pub fn message(&self) -> (text: &'static str)
        ensures
            text@ == match *self {
                StakeFlowError::Unauthorized => "Unauthorized"@,
                StakeFlowError::InvalidMint => "Invalid mint"@,
                StakeFlowError::InsufficientStake => "Insufficient staked amount"@,
                StakeFlowError::InvalidAmount => "Invalid amount"@,
                StakeFlowError::NotClosable => "Account not closable"@,
            },
    {
        match self {
            StakeFlowError::Unauthorized => "Unauthorized",
            StakeFlowError::InvalidMint => "Invalid mint",
            StakeFlowError::InsufficientStake => "Insufficient staked amount",
            StakeFlowError::InvalidAmount => "Invalid amount",
            StakeFlowError::NotClosable => "Account not closable",
        }
    }
}

} // verus!
