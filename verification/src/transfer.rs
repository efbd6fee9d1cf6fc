//! The movement of funds that a deposit or a withdrawal calls for.
//!
//! The ledger moves no funds itself. It says which transfer an operation needs, and applies
//! the operation once it is told how that transfer ended.

use crate::error::StakingError;
use crate::identity::Identity;
use crate::state::{StakingState, UserStake};
use vstd::prelude::*;

verus! {

/// Which way funds move between a participant and the vault.
#[derive(Clone, Copy, Debug, PartialEq, Eq, Structural)]
pub enum Direction {
    /// From the participant into the vault, on the participant's authority.
    IntoVault,
    /// From the vault to the participant, on the ledger's own authority.
    OutOfVault,
}

/// A transfer of funds to be carried out on the ledger's behalf.
#[derive(Clone, Copy, Debug, PartialEq, Eq)]
pub struct TransferOrder {
    /// Which way the funds move.
    pub direction: Direction,
    /// The participant who pays or is paid.
    pub participant: Identity,
    /// The account that holds the staked funds.
    pub vault: Identity,
    /// The units to move.
    pub amount: u64,
}

/// How a transfer ended.
#[derive(Clone, Copy, Debug, PartialEq, Eq, Structural)]
pub enum TransferOutcome {
    /// The funds were moved.
    Completed,
    /// The funds were not moved.
    Failed,
}

/// Names the transfer that a deposit of `amount` by `user` calls for.
///
/// A deposit of nothing is rejected, so that no transfer is attempted for it.
pub fn stake_transfer(state: &StakingState, user: Identity, amount: u64) -> (result: Result<
    TransferOrder,
    StakingError,
>)
    ensures
        amount == 0 ==> result == Err::<TransferOrder, StakingError>(StakingError::ZeroAmount),
        amount > 0 ==> result == Ok::<TransferOrder, StakingError>(
            TransferOrder {
                direction: Direction::IntoVault,
                participant: user,
                vault: state.vault,
                amount,
            },
        ),
{
    if amount == 0 {
        return Err(StakingError::ZeroAmount);
    }
    Ok(TransferOrder { direction: Direction::IntoVault, participant: user, vault: state.vault, amount })
}

/// Names the transfer that the withdrawal of `user_stake` by `user` calls for: all of its stake.
///
/// A withdrawal from an empty stake is rejected, so that no transfer is attempted for it.
pub fn unstake_transfer(state: &StakingState, user_stake: &UserStake, user: Identity) -> (result:
    Result<TransferOrder, StakingError>)
    ensures
        user_stake.amount == 0 ==> result == Err::<TransferOrder, StakingError>(
            StakingError::NoStake,
        ),
        user_stake.amount > 0 ==> result == Ok::<TransferOrder, StakingError>(
            TransferOrder {
                direction: Direction::OutOfVault,
                participant: user,
                vault: state.vault,
                amount: user_stake.amount,
            },
        ),
{
    if user_stake.amount == 0 {
        return Err(StakingError::NoStake);
    }
    Ok(
        TransferOrder {
            direction: Direction::OutOfVault,
            participant: user,
            vault: state.vault,
            amount: user_stake.amount,
        },
    )
}

} // verus!
