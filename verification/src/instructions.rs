//! The operations of the ledger.
//!
//! Every operation that changes a record first accrues the caller's credits through the
//! current slot. An operation that is rejected changes nothing.

use crate::accrual::{accrued, representable, SCALE};
use crate::clock::Moment;
use crate::error::StakingError;
use crate::events::{FomoBonusEvent, StakeEvent, StakeInfoEvent, UnstakeEvent};
use crate::identity::Identity;
use crate::state::{
    accrual_fits, accrue_credits, compute_pending, StakingState, UserStake, BONUS_DIVISOR,
};
use crate::tier::{get_tier, tier_of};
use crate::transfer::TransferOutcome;
use vstd::prelude::*;

verus! {

impl UserStake {
    /// Whether a deposit of `amount` at `slot` keeps the credits and the stake within range.
    pub open spec fn can_stake(self, amount: u64, slot: u64, rate: u64) -> bool {
        self.can_accrue(slot, rate) && self.amount + amount <= u64::MAX
    }

    /// This record after `user` has deposited `amount` at `slot`.
    ///
    /// The deposit earns nothing for the time before `slot`: the credits are accrued on the
    /// stake as it was.
    pub open spec fn after_stake(self, user: Identity, amount: u64, slot: u64, rate: u64) -> UserStake {
        let accrued = self.accrued_through(slot, rate);
        UserStake {
            user,
            amount: (accrued.amount + amount) as u64,
            staked_at: if accrued.staked_at == 0 {
                slot
            } else {
                accrued.staked_at
            },
            last_credit_slot: slot,
            credits: accrued.credits,
        }
    }

    /// This record after its stake has been withdrawn at `slot`. The credits stay.
    pub open spec fn after_unstake(self, slot: u64, rate: u64) -> UserStake {
        UserStake { amount: 0, staked_at: 0, ..self.accrued_through(slot, rate) }
    }

    /// The bonus that a claim at `slot` pays: a tenth of the credits accrued through `slot`,
    /// rounded down.
    pub open spec fn bonus(self, slot: u64, rate: u64) -> nat {
        self.accrued_through(slot, rate).credits as nat / (BONUS_DIVISOR as nat)
    }

    /// Whether a claim at `slot` keeps the credits within range.
    pub open spec fn can_claim(self, slot: u64, rate: u64) -> bool {
        &&& self.can_accrue(slot, rate)
        &&& self.accrued_through(slot, rate).credits + self.bonus(slot, rate) <= u64::MAX
    }

    /// This record after the bonus has been claimed at `slot`.
    pub open spec fn after_claim(self, slot: u64, rate: u64) -> UserStake {
        let accrued = self.accrued_through(slot, rate);
        UserStake { credits: (accrued.credits + self.bonus(slot, rate)) as u64, ..accrued }
    }
}

impl StakingState {
    /// The record of a ledger that has just been set up: nothing staked, the window closed.
    pub open spec fn initial(
        authority: Identity,
        usdc_mint: Identity,
        vault: Identity,
        credit_rate: u64,
        bump: u8,
    ) -> StakingState {
        StakingState {
            authority,
            usdc_mint,
            vault,
            credit_rate,
            total_staked: 0,
            last_staker: None,
            last_stake_time: 0,
            bump,
        }
    }

    /// Whether a deposit of `amount` keeps the sum of all stakes within range.
    pub open spec fn can_take(self, amount: u64) -> bool {
        self.total_staked + amount <= u64::MAX
    }

    /// This record after `user` has deposited `amount` at `unix_timestamp`: the bonus window
    /// is opened anew for `user`.
    pub open spec fn after_stake(self, user: Identity, amount: u64, unix_timestamp: i64) -> StakingState {
        StakingState {
            total_staked: (self.total_staked + amount) as u64,
            last_staker: Some(user),
            last_stake_time: unix_timestamp,
            ..self
        }
    }

    /// This record after `withdrawn` units have left the vault. The sum of all stakes does not
    /// drop below 0.
    pub open spec fn after_unstake(self, withdrawn: u64) -> StakingState {
        StakingState {
            total_staked: if withdrawn >= self.total_staked {
                0
            } else {
                (self.total_staked - withdrawn) as u64
            },
            ..self
        }
    }

    /// This record after the bonus has been claimed: the window is closed.
    pub open spec fn after_claim(self) -> StakingState {
        StakingState { last_staker: None, last_stake_time: 0, ..self }
    }

    /// The reason for which a claim by `user` at `unix_timestamp` is rejected, if it is.
    pub open spec fn claim_refusal(self, user: Identity, unix_timestamp: i64) -> Option<StakingError> {
        if self.last_staker != Some(user) {
            Some(StakingError::NotLastStaker)
        } else if !self.window_elapsed(unix_timestamp) {
            Some(StakingError::FomoWindowOpen)
        } else {
            None
        }
    }
}

/// The reason for which a deposit of `amount` is rejected, if it is.
pub open spec fn stake_refusal(amount: u64, transfer: TransferOutcome) -> Option<StakingError> {
    if amount == 0 {
        Some(StakingError::ZeroAmount)
    } else if transfer == TransferOutcome::Failed {
        Some(StakingError::TransferFailed)
    } else {
        None
    }
}

/// The reason for which the withdrawal of a stake of `staked` units is rejected, if it is.
pub open spec fn unstake_refusal(staked: u64, transfer: TransferOutcome) -> Option<StakingError> {
    if staked == 0 {
        Some(StakingError::NoStake)
    } else if transfer == TransferOutcome::Failed {
        Some(StakingError::TransferFailed)
    } else {
        None
    }
}

/// A deposit is refused for its amount exactly when it deposits nothing, and for its transfer
/// exactly when it deposits something and the transfer failed.
pub proof fn deposit_is_refused_for_nothing_or_a_failed_transfer(
    amount: u64,
    transfer: TransferOutcome,
)
    ensures
        stake_refusal(amount, transfer) == Some(StakingError::ZeroAmount) <==> amount == 0,
        stake_refusal(amount, transfer) == Some(StakingError::TransferFailed) <==> amount > 0
            && transfer == TransferOutcome::Failed,
        stake_refusal(amount, transfer) is None <==> amount > 0 && transfer
            == TransferOutcome::Completed,
{
}

/// A withdrawal is refused for want of a stake exactly when the stake is empty, and for its
/// transfer exactly when there is a stake and the transfer failed. With a completed transfer
/// it is applied to every stake that is not empty.
pub proof fn withdrawal_is_refused_for_no_stake_or_a_failed_transfer(
    staked: u64,
    transfer: TransferOutcome,
)
    ensures
        unstake_refusal(staked, transfer) == Some(StakingError::NoStake) <==> staked == 0,
        unstake_refusal(staked, transfer) == Some(StakingError::TransferFailed) <==> staked > 0
            && transfer == TransferOutcome::Failed,
        unstake_refusal(staked, transfer) is None <==> staked > 0 && transfer
            == TransferOutcome::Completed,
{
}

/// The bonus is a tenth, rounded down, of the credits as they stand after accrual through the
/// slot of the claim, and the claim adds it to them. Where the stake is not empty, the clock
/// has moved on and what the stake earned is representable, those credits are the balance
/// plus `amount * elapsed * rate / SCALE`, rounded down.
pub proof fn bonus_is_a_tenth_of_the_accrued_credits(entry: UserStake, slot: u64, rate: u64)
    requires
        entry.can_claim(slot, rate),
    ensures
        entry.bonus(slot, rate) == (entry.credits + entry.pending(slot, rate)) / 10,
        entry.after_claim(slot, rate).credits == entry.credits + entry.pending(slot, rate) + (
        entry.credits + entry.pending(slot, rate)) / 10,
        entry.amount > 0 && entry.last_credit_slot < slot && representable(
            entry.amount as nat,
            (slot - entry.last_credit_slot) as nat,
            rate as nat,
        ) ==> entry.pending(slot, rate) == (entry.amount as nat) * ((slot
            - entry.last_credit_slot) as nat) * (rate as nat) / (SCALE as nat),
        entry.amount == 0 || entry.last_credit_slot >= slot ==> entry.pending(slot, rate) == 0,
{
}

/// A deposit earns from its own slot on: what is pending on a first deposit of `amount` made
/// at `slot` is, at a later slot, what `amount` earns over the slots in between, and within
/// the representable range that is `amount * (later - slot) * rate / SCALE`, rounded down.
pub proof fn first_deposit_earns_from_its_slot(
    user: Identity,
    amount: u64,
    slot: u64,
    later: u64,
    rate: u64,
)
    requires
        amount > 0,
        slot < later,
    ensures
        UserStake::fresh(user).after_stake(user, amount, slot, rate).pending(later, rate)
            == accrued(amount as nat, (later - slot) as nat, rate as nat),
        representable(amount as nat, (later - slot) as nat, rate as nat) ==> UserStake::fresh(
            user,
        ).after_stake(user, amount, slot, rate).pending(later, rate) == (amount as nat) * ((later
            - slot) as nat) * (rate as nat) / (SCALE as nat),
{
}

/// While the clock does not run backwards, the slot through which a record is accrued never
/// runs backwards either, and never runs ahead of the clock.
pub proof fn accrual_follows_the_clock(
    entry: UserStake,
    user: Identity,
    amount: u64,
    slot: u64,
    rate: u64,
)
    requires
        entry.last_credit_slot <= slot,
    ensures
        entry.last_credit_slot <= entry.accrued_through(slot, rate).last_credit_slot <= slot,
        entry.last_credit_slot <= entry.after_stake(user, amount, slot, rate).last_credit_slot
            <= slot,
        entry.last_credit_slot <= entry.after_unstake(slot, rate).last_credit_slot <= slot,
        entry.last_credit_slot <= entry.after_claim(slot, rate).last_credit_slot <= slot,
{
}

/// The window belongs to the latest depositor alone: once anyone else has deposited, a claim
/// by an earlier depositor is rejected with `NotLastStaker`, however long it waits.
pub proof fn later_deposit_takes_the_window(
    state: StakingState,
    earlier: Identity,
    later: Identity,
    amount: u64,
    deposited_at: i64,
    claimed_at: i64,
)
    requires
        earlier != later,
    ensures
        state.after_stake(later, amount, deposited_at).claim_refusal(earlier, claimed_at) == Some(
            StakingError::NotLastStaker,
        ),
{
}

/// A claim closes the window: until the next deposit, a claim by any participant is rejected
/// with `NotLastStaker`.
pub proof fn claim_closes_the_window(state: StakingState, user: Identity, claimed_at: i64)
    ensures
        state.after_claim().claim_refusal(user, claimed_at) == Some(StakingError::NotLastStaker),
{
}

/// Sets up a ledger with the given authority, mint, vault and credit rate.
pub fn initialize(
    authority: Identity,
    usdc_mint: Identity,
    vault: Identity,
    credit_rate: u64,
    bump: u8,
) -> (state: StakingState)
    ensures
        state == StakingState::initial(authority, usdc_mint, vault, credit_rate, bump),
        state.window_consistent(),
{
    StakingState {
        authority,
        usdc_mint,
        vault,
        credit_rate,
        total_staked: 0,
        last_staker: None,
        last_stake_time: 0,
        bump,
    }
}

/// Tells whether a deposit of `amount` at `now` keeps the credits, the stake and the sum of
/// all stakes within range: what `stake` asks of a deposit that it applies.
pub fn stake_fits(state: &StakingState, user_stake: &UserStake, amount: u64, now: &Moment) -> (fits:
    bool)
    ensures
        fits == (user_stake.can_stake(amount, now.slot, state.credit_rate) && state.can_take(
            amount,
        )),
{
    accrual_fits(user_stake, now, state.credit_rate) && amount <= u64::MAX - user_stake.amount
        && amount <= u64::MAX - state.total_staked
}

/// Tells whether a withdrawal at `now` keeps the credits within range: what `unstake` asks of
/// a withdrawal that it applies.
pub fn unstake_fits(state: &StakingState, user_stake: &UserStake, now: &Moment) -> (fits: bool)
    ensures
        fits == user_stake.can_accrue(now.slot, state.credit_rate),
{
    accrual_fits(user_stake, now, state.credit_rate)
}

/// Tells whether a claim at `now` keeps the credits within range: what `claim_fomo_bonus` asks
/// of a claim that it applies.
pub fn claim_fits(state: &StakingState, user_stake: &UserStake, now: &Moment) -> (fits: bool)
    ensures
        fits == user_stake.can_claim(now.slot, state.credit_rate),
{
    let pending: u64 = compute_pending(user_stake, now, state.credit_rate);
    if pending > u64::MAX - user_stake.credits {
        return false;
    }
    let credits: u64 = user_stake.credits + pending;
    credits / BONUS_DIVISOR <= u64::MAX - credits
}

/// Applies a deposit of `amount` by `user` at `now`, given how its transfer into the vault
/// ended.
///
/// A deposit of nothing fails with `ZeroAmount`, whatever is said of the transfer; a deposit
/// whose transfer failed fails with `TransferFailed`. Otherwise the credits of `user_stake`
/// are accrued through `now`, the deposit is added to the stake and to the sum of all stakes,
/// and the bonus window is opened anew for `user`.
pub fn stake(
    state: &mut StakingState,
    user_stake: &mut UserStake,
    user: Identity,
    amount: u64,
    now: &Moment,
    transfer: TransferOutcome,
) -> (result: Result<StakeEvent, StakingError>)
    requires
        stake_refusal(amount, transfer) is None ==> old(user_stake).can_stake(
            amount,
            now.slot,
            old(state).credit_rate,
        ) && old(state).can_take(amount),
    ensures
        result is Ok <==> stake_refusal(amount, transfer) is None,
        result matches Ok(event) ==> {
            &&& *final(user_stake) == old(user_stake).after_stake(
                user,
                amount,
                now.slot,
                old(state).credit_rate,
            )
            &&& *final(state) == old(state).after_stake(user, amount, now.unix_timestamp)
            &&& event == (StakeEvent {
                user,
                amount,
                total: final(user_stake).amount,
                tier: tier_of(final(user_stake).amount),
            })
        },
        result matches Err(error) ==> {
            &&& Some(error) == stake_refusal(amount, transfer)
            &&& *final(user_stake) == *old(user_stake)
            &&& *final(state) == *old(state)
        },
        final(user_stake).credits >= old(user_stake).credits,
        old(user_stake).well_formed() ==> final(user_stake).well_formed(),
        old(state).window_consistent() && now.unix_timestamp != 0
            ==> final(state).window_consistent(),
{
    if amount == 0 {
        return Err(StakingError::ZeroAmount);
    }
    match transfer {
        TransferOutcome::Failed => {
            return Err(StakingError::TransferFailed);
        },
        TransferOutcome::Completed => {},
    }
    accrue_credits(user_stake, now, state.credit_rate);

    user_stake.amount = user_stake.amount + amount;
    user_stake.user = user;
    if user_stake.staked_at == 0 {
        user_stake.staked_at = now.slot;
    }
    user_stake.last_credit_slot = now.slot;

    state.total_staked = state.total_staked + amount;
    state.last_staker = Some(user);
    state.last_stake_time = now.unix_timestamp;

    Ok(StakeEvent { user, amount, total: user_stake.amount, tier: get_tier(user_stake.amount) })
}

/// Applies the withdrawal by `user` of all of `user_stake` at `now`, given how its transfer
/// out of the vault ended.
///
/// A withdrawal from an empty stake fails with `NoStake`, whatever is said of the transfer; a
/// withdrawal whose transfer failed fails with `TransferFailed`. Otherwise the credits are
/// accrued through `now` and kept, the stake is set to nothing, and the sum of all stakes is
/// lowered by what was withdrawn, though not below 0.
pub fn unstake(
    state: &mut StakingState,
    user_stake: &mut UserStake,
    user: Identity,
    now: &Moment,
    transfer: TransferOutcome,
) -> (result: Result<UnstakeEvent, StakingError>)
    requires
        unstake_refusal(old(user_stake).amount, transfer) is None ==> old(user_stake).can_accrue(
            now.slot,
            old(state).credit_rate,
        ),
    ensures
        result is Ok <==> unstake_refusal(old(user_stake).amount, transfer) is None,
        result matches Ok(event) ==> {
            &&& *final(user_stake) == old(user_stake).after_unstake(
                now.slot,
                old(state).credit_rate,
            )
            &&& *final(state) == old(state).after_unstake(old(user_stake).amount)
            &&& event == (UnstakeEvent { user, amount: old(user_stake).amount })
        },
        result matches Err(error) ==> {
            &&& Some(error) == unstake_refusal(old(user_stake).amount, transfer)
            &&& *final(user_stake) == *old(user_stake)
            &&& *final(state) == *old(state)
        },
        final(user_stake).credits >= old(user_stake).credits,
        old(user_stake).well_formed() ==> final(user_stake).well_formed(),
        old(state).window_consistent() ==> final(state).window_consistent(),
{
    if user_stake.amount == 0 {
        return Err(StakingError::NoStake);
    }
    match transfer {
        TransferOutcome::Failed => {
            return Err(StakingError::TransferFailed);
        },
        TransferOutcome::Completed => {},
    }
    accrue_credits(user_stake, now, state.credit_rate);

    let amount: u64 = user_stake.amount;
    user_stake.amount = 0;
    user_stake.staked_at = 0;

    state.total_staked = state.total_staked.saturating_sub(amount);
    Ok(UnstakeEvent { user, amount })
}

/// Decides whether `user` may claim the bonus at `now`: only the latest depositor may, and
/// only once more than `FOMO_WINDOW` seconds have passed since that deposit.
pub fn check_claim(state: &StakingState, user: Identity, now: &Moment) -> (result: Result<
    (),
    StakingError,
>)
    ensures
        result is Ok <==> state.claim_refusal(user, now.unix_timestamp) is None,
        result matches Err(error) ==> Some(error) == state.claim_refusal(user, now.unix_timestamp),
{
    let is_last_staker: bool = match state.last_staker {
        Some(staker) => staker == user,
        None => false,
    };
    if !is_last_staker {
        return Err(StakingError::NotLastStaker);
    }
    if !state.has_window_elapsed(now) {
        return Err(StakingError::FomoWindowOpen);
    }
    Ok(())
}

/// Pays `user` the bonus of the latest deposit and closes the window.
///
/// The claim fails with `NotLastStaker` unless `user` made the latest deposit, and with
/// `FomoWindowOpen` unless more than `FOMO_WINDOW` seconds have passed since. Otherwise the
/// credits of `user_stake` are accrued through `now` and a tenth of them, rounded down, is
/// added as bonus.
pub fn claim_fomo_bonus(
    state: &mut StakingState,
    user_stake: &mut UserStake,
    user: Identity,
    now: &Moment,
) -> (result: Result<FomoBonusEvent, StakingError>)
    requires
        old(state).claim_refusal(user, now.unix_timestamp) is None ==> old(user_stake).can_claim(
            now.slot,
            old(state).credit_rate,
        ),
    ensures
        result is Ok <==> old(state).claim_refusal(user, now.unix_timestamp) is None,
        result matches Ok(event) ==> {
            &&& *final(user_stake) == old(user_stake).after_claim(now.slot, old(state).credit_rate)
            &&& *final(state) == old(state).after_claim()
            &&& event.user == user
            &&& event.bonus == old(user_stake).bonus(now.slot, old(state).credit_rate)
        },
        result matches Err(error) ==> {
            &&& Some(error) == old(state).claim_refusal(user, now.unix_timestamp)
            &&& *final(user_stake) == *old(user_stake)
            &&& *final(state) == *old(state)
        },
        final(user_stake).credits >= old(user_stake).credits,
        old(user_stake).well_formed() ==> final(user_stake).well_formed(),
        old(state).window_consistent() ==> final(state).window_consistent(),
{
    match check_claim(state, user, now) {
        Err(error) => {
            return Err(error);
        },
        Ok(()) => {},
    }
    accrue_credits(user_stake, now, state.credit_rate);
    let bonus: u64 = user_stake.credits / BONUS_DIVISOR;
    user_stake.credits = user_stake.credits + bonus;

    state.last_staker = None;
    state.last_stake_time = 0;

    Ok(FomoBonusEvent { user, bonus })
}

/// Reports the record of one participant as it stands at `now`, with the credits that are
/// pending. Nothing is changed.
pub fn get_stake(state: &StakingState, user_stake: &UserStake, now: &Moment) -> (info:
    StakeInfoEvent)
    ensures
        info == (StakeInfoEvent {
            user: user_stake.user,
            amount: user_stake.amount,
            tier: tier_of(user_stake.amount),
            credits: user_stake.credits,
            pending_credits: user_stake.pending(now.slot, state.credit_rate) as u64,
            staked_at: user_stake.staked_at,
        }),
        info.pending_credits == user_stake.pending(now.slot, state.credit_rate),
{
    let pending: u64 = compute_pending(user_stake, now, state.credit_rate);
    StakeInfoEvent {
        user: user_stake.user,
        amount: user_stake.amount,
        tier: get_tier(user_stake.amount),
        credits: user_stake.credits,
        pending_credits: pending,
        staked_at: user_stake.staked_at,
    }
}

/// Asking again for the snapshot of a record that has not changed, on a ledger that has not
/// changed and at the same time, gives the same snapshot.
pub proof fn snapshot_is_repeatable(
    state: StakingState,
    user_stake: UserStake,
    now: Moment,
    first: StakeInfoEvent,
    second: StakeInfoEvent,
)
    requires
        call_ensures(get_stake, (&state, &user_stake, &now), first),
        call_ensures(get_stake, (&state, &user_stake, &now), second),
    ensures
        first == second,
{
}

/// Changes the credit rate on the authority's word. The new rate holds for every accrual that
/// is computed after the change; credits that are already part of a balance stay as they are.
///
/// Fails with `Unauthorized` unless `caller` is the authority of the ledger.
pub fn set_credit_rate(state: &mut StakingState, caller: Identity, new_rate: u64) -> (result:
    Result<(), StakingError>)
    ensures
        result is Ok <==> caller == old(state).authority,
        result is Ok ==> *final(state) == (StakingState { credit_rate: new_rate, ..*old(state) }),
        result is Err ==> {
            &&& result == Err::<(), StakingError>(StakingError::Unauthorized)
            &&& *final(state) == *old(state)
        },
        old(state).window_consistent() ==> final(state).window_consistent(),
{
    if caller != state.authority {
        return Err(StakingError::Unauthorized);
    }
    state.credit_rate = new_rate;
    Ok(())
}

} // verus!
