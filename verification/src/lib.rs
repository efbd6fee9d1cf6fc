//! A ledger of stakes and the credits they earn.
//!
//! Participants stake a token with the ledger. A stake earns credits slot by slot, in
//! proportion to its size and to the ledger's credit rate; its size alone decides the
//! participant's tier. Whoever deposited last may, once a day has passed without another
//! deposit, claim a bonus of a tenth of their credits.
//!
//! The ledger keeps records and decides; it moves no funds and reads no clock. Each operation
//! is given the current time, and a deposit or withdrawal is applied once the caller says how
//! the transfer that it calls for has ended.

pub mod accrual;
pub mod clock;
pub mod error;
pub mod events;
pub mod identity;
pub mod instructions;
pub mod ledger;
pub mod state;
pub mod tier;
pub mod transfer;

pub use crate::accrual::{accrue, SCALE};
pub use crate::clock::Moment;
pub use crate::error::StakingError;
pub use crate::events::{FomoBonusEvent, StakeEvent, StakeInfoEvent, UnstakeEvent};
pub use crate::identity::Identity;
pub use crate::instructions::{
    check_claim, claim_fits, claim_fomo_bonus, get_stake, initialize, set_credit_rate, stake, stake_fits,
    unstake, unstake_fits,
};
pub use crate::state::{
    accrual_fits, accrue_credits, compute_pending, StakingState, UserStake, BONUS_DIVISOR,
    FOMO_WINDOW,
};
pub use crate::tier::{get_tier, FREE, STAKER, TIER_STAKER, TIER_WHALE, WHALE};
pub use crate::transfer::{
    stake_transfer, unstake_transfer, Direction, TransferOrder, TransferOutcome,
};
