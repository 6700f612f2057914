//! What the program announces when an operation went through.

use crate::address::Address;
use vstd::prelude::*;

verus! {

/// A participant deposited `amount`.
#[derive(Clone, Copy, Debug, PartialEq, Eq)]
pub struct StakeEvent {
    pub owner: Address,
    pub amount: u64,
}

/// A participant withdrew `amount`, of which `penalty` was forfeited.
#[derive(Clone, Copy, Debug, PartialEq, Eq)]
pub struct UnstakeEvent {
    pub owner: Address,
    pub amount: u64,
    pub penalty: u64,
}

/// A participant was paid `rewards`.
#[derive(Clone, Copy, Debug, PartialEq, Eq)]
pub struct ClaimEvent {
    pub owner: Address,
    pub rewards: u64,
}

} // verus!
