//! The ledger as a whole: its record, the records of its participants, and what holds of them
//! after any sequence of operations.

use crate::clock::Moment;
use crate::identity::Identity;
use crate::instructions::{stake_refusal, unstake_refusal};
use crate::state::{StakingState, UserStake};
use crate::transfer::TransferOutcome;
use vstd::prelude::*;

verus! {

/// The record of the ledger together with the records of all who have staked.
pub struct Ledger {
    /// The record of the whole ledger.
    pub state: StakingState,
    /// The records of the participants, each under its owner.
    pub entries: Map<Identity, UserStake>,
}

/// One operation that changes the ledger, with all that it is given.
pub enum Call {
    /// A deposit, and how its transfer ended.
    Stake { user: Identity, amount: u64, now: Moment, transfer: TransferOutcome },
    /// A withdrawal, and how its transfer ended.
    Unstake { user: Identity, now: Moment, transfer: TransferOutcome },
    /// A claim of the bonus.
    ClaimFomoBonus { user: Identity, now: Moment },
    /// A change of the credit rate.
    SetCreditRate { caller: Identity, new_rate: u64 },
}

impl Call {
    /// The slot at which this call is made, for a call that is given the time.
    pub open spec fn slot(self) -> Option<u64> {
        match self {
            Call::Stake { now, .. } => Some(now.slot),
            Call::Unstake { now, .. } => Some(now.slot),
            Call::ClaimFomoBonus { now, .. } => Some(now.slot),
            Call::SetCreditRate { .. } => None,
        }
    }

    /// The slot at which the clock stands once this call has been made, when it stood at
    /// `from` before.
    pub open spec fn clock_after(self, from: u64) -> u64 {
        match self.slot() {
            Some(slot) => slot,
            None => from,
        }
    }

    /// Whether this call, if it is a deposit that is applied, is made at a time other than 0.
    /// The time 0 stands for a closed window, so a deposit made at 0 would leave a depositor
    /// on record without a time.
    pub open spec fn dates_its_deposit(self) -> bool {
        self matches Call::Stake { amount, now, transfer, .. } ==> (stake_refusal(
            amount,
            transfer,
        ) is None ==> now.unix_timestamp != 0)
    }
}

/// The slot at which the clock stands once `calls` have been made, when it stood at `from`
/// before.
pub open spec fn slot_after(calls: Seq<Call>, from: u64) -> u64
    decreases calls.len(),
{
    if calls.len() == 0 {
        from
    } else {
        slot_after(calls.drop_first(), calls[0].clock_after(from))
    }
}

/// Whether the clock, which stood at `from` before `calls`, never runs backwards over them.
pub open spec fn clock_runs_forward(calls: Seq<Call>, from: u64) -> bool
    decreases calls.len(),
{
    calls.len() > 0 ==> from <= calls[0].clock_after(from) && clock_runs_forward(
        calls.drop_first(),
        calls[0].clock_after(from),
    )
}

impl Ledger {
    /// The record of `user`: the one kept, or that of a participant who has never staked.
    pub open spec fn entry(self, user: Identity) -> UserStake {
        if self.entries.contains_key(user) {
            self.entries[user]
        } else {
            UserStake::fresh(user)
        }
    }

    /// Whether `call` can be made on this ledger: what it adds stays within the range of the
    /// balances.
    pub open spec fn admits(self, call: Call) -> bool {
        match call {
            Call::Stake { user, amount, now, transfer } => stake_refusal(amount, transfer) is None
                ==> self.entry(user).can_stake(amount, now.slot, self.state.credit_rate)
                && self.state.can_take(amount),
            Call::Unstake { user, now, transfer } => unstake_refusal(
                self.entry(user).amount,
                transfer,
            ) is None ==> self.entry(user).can_accrue(now.slot, self.state.credit_rate),
            Call::ClaimFomoBonus { user, now } => self.state.claim_refusal(
                user,
                now.unix_timestamp,
            ) is None ==> self.entry(user).can_claim(now.slot, self.state.credit_rate),
            Call::SetCreditRate { .. } => true,
        }
    }

    /// This ledger after `call`. A call that is rejected leaves it as it is.
    pub open spec fn after(self, call: Call) -> Ledger {
        match call {
            Call::Stake { user, amount, now, transfer } => if stake_refusal(amount, transfer) is None {
                Ledger {
                    state: self.state.after_stake(user, amount, now.unix_timestamp),
                    entries: self.entries.insert(
                        user,
                        self.entry(user).after_stake(user, amount, now.slot, self.state.credit_rate),
                    ),
                }
            } else {
                self
            },
            Call::Unstake { user, now, transfer } => if unstake_refusal(
                self.entry(user).amount,
                transfer,
            ) is None {
                Ledger {
                    state: self.state.after_unstake(self.entry(user).amount),
                    entries: self.entries.insert(
                        user,
                        self.entry(user).after_unstake(now.slot, self.state.credit_rate),
                    ),
                }
            } else {
                self
            },
            Call::ClaimFomoBonus { user, now } => if self.state.claim_refusal(
                user,
                now.unix_timestamp,
            ) is None {
                Ledger {
                    state: self.state.after_claim(),
                    entries: self.entries.insert(
                        user,
                        self.entry(user).after_claim(now.slot, self.state.credit_rate),
                    ),
                }
            } else {
                self
            },
            Call::SetCreditRate { caller, new_rate } => if caller == self.state.authority {
                Ledger { state: StakingState { credit_rate: new_rate, ..self.state }, ..self }
            } else {
                self
            },
        }
    }

    /// Whether `calls` can be made on this ledger one after the other.
    pub open spec fn admits_all(self, calls: Seq<Call>) -> bool
        decreases calls.len(),
    {
        calls.len() > 0 ==> self.admits(calls[0]) && self.after(calls[0]).admits_all(
            calls.drop_first(),
        )
    }

    /// This ledger after `calls` have been made one after the other.
    pub open spec fn after_all(self, calls: Seq<Call>) -> Ledger
        decreases calls.len(),
    {
        if calls.len() == 0 {
            self
        } else {
            self.after(calls[0]).after_all(calls.drop_first())
        }
    }
}

/// No operation lowers anyone's credits.
pub proof fn call_keeps_credits(ledger: Ledger, call: Call, user: Identity)
    requires
        ledger.admits(call),
    ensures
        ledger.after(call).entry(user).credits >= ledger.entry(user).credits,
{
}

/// Whatever operations are applied, in whatever order, nobody's credits ever decrease.
pub proof fn credits_never_decrease(ledger: Ledger, calls: Seq<Call>, user: Identity)
    requires
        ledger.admits_all(calls),
    ensures
        ledger.after_all(calls).entry(user).credits >= ledger.entry(user).credits,
    decreases calls.len(),
{
    if calls.len() > 0 {
        call_keeps_credits(ledger, calls[0], user);
        credits_never_decrease(ledger.after(calls[0]), calls.drop_first(), user);
    }
}

/// An operation made at or after the slot through which a record is accrued moves that slot
/// forward if at all, and not past the slot of the operation.
pub proof fn call_keeps_accrual_behind_the_clock(
    ledger: Ledger,
    call: Call,
    user: Identity,
    from: u64,
)
    requires
        ledger.entry(user).last_credit_slot <= from,
        from <= call.clock_after(from),
    ensures
        ledger.entry(user).last_credit_slot <= ledger.after(call).entry(user).last_credit_slot,
        ledger.after(call).entry(user).last_credit_slot <= call.clock_after(from),
{
}

/// While the clock does not run backwards, the slot through which a record is accrued never
/// runs backwards either, and never runs ahead of the clock, whatever operations are applied
/// and in whatever order.
pub proof fn accrual_stays_behind_the_clock(
    ledger: Ledger,
    calls: Seq<Call>,
    user: Identity,
    from: u64,
)
    requires
        ledger.entry(user).last_credit_slot <= from,
        clock_runs_forward(calls, from),
    ensures
        ledger.entry(user).last_credit_slot <= ledger.after_all(calls).entry(
            user,
        ).last_credit_slot,
        ledger.after_all(calls).entry(user).last_credit_slot <= slot_after(calls, from),
    decreases calls.len(),
{
    if calls.len() > 0 {
        call_keeps_accrual_behind_the_clock(ledger, calls[0], user, from);
        accrual_stays_behind_the_clock(
            ledger.after(calls[0]),
            calls.drop_first(),
            user,
            calls[0].clock_after(from),
        );
    }
}

/// No operation puts into a staking period a record that holds no stake.
pub proof fn call_keeps_records_well_formed(ledger: Ledger, call: Call, user: Identity)
    requires
        ledger.admits(call),
        ledger.entry(user).well_formed(),
    ensures
        ledger.after(call).entry(user).well_formed(),
{
}

/// Whatever operations are applied, in whatever order, a record that holds no stake is in no
/// staking period.
pub proof fn records_stay_well_formed(ledger: Ledger, calls: Seq<Call>, user: Identity)
    requires
        ledger.admits_all(calls),
        ledger.entry(user).well_formed(),
    ensures
        ledger.after_all(calls).entry(user).well_formed(),
    decreases calls.len(),
{
    if calls.len() > 0 {
        call_keeps_records_well_formed(ledger, calls[0], user);
        records_stay_well_formed(ledger.after(calls[0]), calls.drop_first(), user);
    }
}

/// An operation leaves the record of the bonus window consistent, unless it is a deposit that
/// is applied at time 0.
pub proof fn call_keeps_window_consistent(ledger: Ledger, call: Call)
    requires
        ledger.state.window_consistent(),
        call.dates_its_deposit(),
    ensures
        ledger.after(call).state.window_consistent(),
{
}

/// As long as no deposit is applied at time 0, the time of the latest deposit is 0 if and only
/// if no depositor is on record, whatever operations are applied and in whatever order.
pub proof fn window_stays_consistent(ledger: Ledger, calls: Seq<Call>)
    requires
        ledger.state.window_consistent(),
        forall|i: int| 0 <= i < calls.len() ==> (#[trigger] calls[i]).dates_its_deposit(),
    ensures
        ledger.after_all(calls).state.window_consistent(),
    decreases calls.len(),
{
    if calls.len() > 0 {
        call_keeps_window_consistent(ledger, calls[0]);
        let rest = calls.drop_first();
        assert forall|i: int| 0 <= i < rest.len() implies (#[trigger] rest[i]).dates_its_deposit() by {
            assert(rest[i] == calls[i + 1]);
        }
        window_stays_consistent(ledger.after(calls[0]), rest);
    }
}

} // verus!
