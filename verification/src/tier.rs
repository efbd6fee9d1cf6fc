//! Service tiers unlocked by the size of a stake.

use vstd::prelude::*;

verus! {

/// Smallest stake, in minor units, that reaches the staker tier.
pub const TIER_STAKER: u64 = 100_000_000;

/// Smallest stake, in minor units, that reaches the whale tier.
pub const TIER_WHALE: u64 = 1_000_000_000;

/// The tier of those who stake less than `TIER_STAKER`.
pub const FREE: u8 = 0;

/// The tier of those who stake at least `TIER_STAKER` and less than `TIER_WHALE`.
pub const STAKER: u8 = 1;

/// The tier of those who stake at least `TIER_WHALE`.
pub const WHALE: u8 = 2;

/// The tier of a stake of `amount` minor units.
pub open spec fn tier_of(amount: u64) -> u8 {
    if amount >= TIER_WHALE {
        WHALE
    } else if amount >= TIER_STAKER {
        STAKER
    } else {
        FREE
    }
}

/// Classifies a stake by its size alone.
pub fn get_tier(amount: u64) -> (tier: u8)
    ensures
        tier == tier_of(amount),
{
    if amount >= TIER_WHALE {
        WHALE
    } else if amount >= TIER_STAKER {
        STAKER
    } else {
        FREE
    }
}

} // verus!
