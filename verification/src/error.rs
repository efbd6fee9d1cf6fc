//! Why an operation was turned down.

use vstd::prelude::*;

verus! {

/// The reasons for which the ledger rejects an operation. A rejected operation changes nothing.
#[derive(Clone, Copy, Debug, PartialEq, Eq, Structural)]
pub enum StakingError {
    /// A deposit of nothing.
    ZeroAmount,
    /// A withdrawal from an entry that holds no stake.
    NoStake,
    /// A bonus claim by anyone but the most recent depositor.
    NotLastStaker,
    /// A bonus claim before the window has run out.
    FomoWindowOpen,
    /// A change of the credit rate by anyone but the authority.
    Unauthorized,
    /// The funds could not be moved.
    TransferFailed,
}

impl StakingError {
    /// The text that describes this error.
    pub open spec fn message_text(self) -> Seq<char> {
        match self {
            StakingError::ZeroAmount => "Amount must be > 0"@,
            StakingError::NoStake => "No active stake"@,
            StakingError::NotLastStaker => "Not the last staker"@,
            StakingError::FomoWindowOpen => "Fomo3D window still open"@,
            StakingError::Unauthorized => "Caller is not the authority"@,
            StakingError::TransferFailed => "Token transfer failed"@,
        }
    }

    /// Describes this error in words.
    pub fn message(&self) -> (text: &'static str)
        ensures
            text@ == self.message_text(),
    {
        match self {
            StakingError::ZeroAmount => "Amount must be > 0",
            StakingError::NoStake => "No active stake",
            StakingError::NotLastStaker => "Not the last staker",
            StakingError::FomoWindowOpen => "Fomo3D window still open",
            StakingError::Unauthorized => "Caller is not the authority",
            StakingError::TransferFailed => "Token transfer failed",
        }
    }
}

} // verus!
