//! The records a ledger keeps: one for the whole ledger, one for each participant.

use crate::accrual::{accrue, accrued};
use crate::clock::Moment;
use crate::identity::Identity;
use vstd::prelude::*;

verus! {

/// Seconds that must pass after the latest deposit before its bonus can be claimed.
pub const FOMO_WINDOW: i64 = 86400;

/// The bonus is the claimant's credits divided by this, rounded down.
pub const BONUS_DIVISOR: u64 = 10;

/// The record of the whole ledger.
#[derive(Clone, Copy, Debug, PartialEq, Eq)]
pub struct StakingState {
    /// Who may change the credit rate.
    pub authority: Identity,
    /// The mint of the staked token.
    pub usdc_mint: Identity,
    /// The account that holds the staked funds.
    pub vault: Identity,
    /// Credits per unit per slot, as a multiple of `1 / SCALE`.
    pub credit_rate: u64,
    /// The sum of all stakes.
    pub total_staked: u64,
    /// The most recent depositor, or none while the bonus window is closed.
    pub last_staker: Option<Identity>,
    /// When the most recent deposit was made, or 0 while the bonus window is closed.
    pub last_stake_time: i64,
    /// The bump seed of the ledger's own signing address.
    pub bump: u8,
}

/// The record of one participant.
#[derive(Clone, Copy, Debug, PartialEq, Eq)]
pub struct UserStake {
    /// The participant.
    pub user: Identity,
    /// The units staked now; 0 when nothing is staked.
    pub amount: u64,
    /// The slot at which the current staking period began, or 0.
    pub staked_at: u64,
    /// The slot through which credits have been accrued.
    pub last_credit_slot: u64,
    /// The credits accrued so far.
    pub credits: u64,
}

impl StakingState {
    /// The bonus window is closed exactly when no depositor is on record: the time of the
    /// latest deposit is 0 if and only if there is no latest depositor.
    pub open spec fn window_consistent(self) -> bool {
        self.last_stake_time == 0 <==> self.last_staker is None
    }

    /// Whether at `unix_timestamp` the window of the latest deposit has run out.
    pub open spec fn window_elapsed(self, unix_timestamp: i64) -> bool {
        unix_timestamp > self.last_stake_time + FOMO_WINDOW
    }

    /// Tells whether at `now` the window of the latest deposit has run out.
    pub fn has_window_elapsed(&self, now: &Moment) -> (elapsed: bool)
        ensures
            elapsed == self.window_elapsed(now.unix_timestamp),
    {
        let deadline: i128 = self.last_stake_time as i128 + FOMO_WINDOW as i128;
        now.unix_timestamp as i128 > deadline
    }
}

impl UserStake {
    /// A record that holds no stake is in no staking period.
    pub open spec fn well_formed(self) -> bool {
        self.amount == 0 ==> self.staked_at == 0
    }

    /// The record of a participant who has never staked.
    pub open spec fn fresh(user: Identity) -> UserStake {
        UserStake { user, amount: 0, staked_at: 0, last_credit_slot: 0, credits: 0 }
    }

    /// The credits earned up to `slot` at `rate` that are not yet part of `credits`.
    ///
    /// An empty stake earns nothing, nor does any stake while the clock has not moved past the
    /// slot of its last accrual.
    pub open spec fn pending(self, slot: u64, rate: u64) -> nat {
        if self.amount == 0 || self.last_credit_slot >= slot {
            0
        } else {
            accrued(self.amount as nat, (slot - self.last_credit_slot) as nat, rate as nat)
        }
    }

    /// Whether the credits pending at `slot` can be added without leaving the balance's range.
    pub open spec fn can_accrue(self, slot: u64, rate: u64) -> bool {
        self.credits + self.pending(slot, rate) <= u64::MAX
    }

    /// This record with its credits accrued through `slot` at `rate`.
    ///
    /// The record of an empty stake, or one already accrued through `slot` or later, stays as
    /// it is.
    pub open spec fn accrued_through(self, slot: u64, rate: u64) -> UserStake {
        if self.amount == 0 || self.last_credit_slot >= slot {
            self
        } else {
            UserStake {
                credits: (self.credits + self.pending(slot, rate)) as u64,
                last_credit_slot: slot,
                ..self
            }
        }
    }

    /// Creates the record of a participant who has not staked yet.
    pub fn new(user: Identity) -> (stake: UserStake)
        ensures
            stake == UserStake::fresh(user),
            stake.well_formed(),
    {
        UserStake { user, amount: 0, staked_at: 0, last_credit_slot: 0, credits: 0 }
    }
}

/// Computes the credits that `stake` has earned up to `now` and that are not yet part of its
/// balance. Nothing is changed.
pub fn compute_pending(stake: &UserStake, now: &Moment, rate: u64) -> (pending: u64)
    ensures
        pending == stake.pending(now.slot, rate),
{
    if stake.amount == 0 || stake.last_credit_slot >= now.slot {
        return 0;
    }
    accrue(stake.amount, now.slot - stake.last_credit_slot, rate)
}

/// Asking again for the pending credits of a record that has not changed, at the same time
/// and rate, gives the same answer.
pub proof fn pending_query_is_repeatable(
    stake: UserStake,
    now: Moment,
    rate: u64,
    first: u64,
    second: u64,
)
    requires
        call_ensures(compute_pending, (&stake, &now, rate), first),
        call_ensures(compute_pending, (&stake, &now, rate), second),
    ensures
        first == second,
{
}

/// Tells whether the credits that `stake` has earned up to `now` can be added to its balance
/// without leaving the balance's range.
pub fn accrual_fits(stake: &UserStake, now: &Moment, rate: u64) -> (fits: bool)
    ensures
        fits == stake.can_accrue(now.slot, rate),
{
    compute_pending(stake, now, rate) <= u64::MAX - stake.credits
}

/// Adds to `stake` the credits it has earned up to `now` and marks it as accrued through `now`.
pub fn accrue_credits(stake: &mut UserStake, now: &Moment, rate: u64)
    requires
        old(stake).can_accrue(now.slot, rate),
    ensures
        *final(stake) == old(stake).accrued_through(now.slot, rate),
        final(stake).credits == old(stake).credits + old(stake).pending(now.slot, rate),
        final(stake).credits >= old(stake).credits,
        final(stake).last_credit_slot >= old(stake).last_credit_slot,
        old(stake).well_formed() ==> final(stake).well_formed(),
{
    if stake.amount == 0 || stake.last_credit_slot >= now.slot {
        return ;
    }
    let earned: u64 = compute_pending(stake, now, rate);
    stake.credits = stake.credits + earned;
    stake.last_credit_slot = now.slot;
}

} // verus!
