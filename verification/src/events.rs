//! What the ledger reports of each operation it has applied.

use crate::identity::Identity;
use vstd::prelude::*;

verus! {

/// A deposit was applied.
#[derive(Clone, Copy, Debug, PartialEq, Eq)]
pub struct StakeEvent {
    /// The depositor.
    pub user: Identity,
    /// The units deposited.
    pub amount: u64,
    /// The depositor's stake after the deposit.
    pub total: u64,
    /// The tier of that stake.
    pub tier: u8,
}

/// A stake was withdrawn in full.
#[derive(Clone, Copy, Debug, PartialEq, Eq)]
pub struct UnstakeEvent {
    /// The participant who withdrew.
    pub user: Identity,
    /// The units withdrawn.
    pub amount: u64,
}

/// The bonus of the latest depositor was paid.
#[derive(Clone, Copy, Debug, PartialEq, Eq)]
pub struct FomoBonusEvent {
    /// The claimant.
    pub user: Identity,
    /// The credits paid as bonus.
    pub bonus: u64,
}

/// A snapshot of one participant's record.
#[derive(Clone, Copy, Debug, PartialEq, Eq)]
pub struct StakeInfoEvent {
    /// The participant.
    pub user: Identity,
    /// The units staked.
    pub amount: u64,
    /// The tier of that stake.
    pub tier: u8,
    /// The credits accrued so far.
    pub credits: u64,
    /// The credits earned since the last accrual.
    pub pending_credits: u64,
    /// The slot at which the current staking period began, or 0.
    pub staked_at: u64,
}

} // verus!
