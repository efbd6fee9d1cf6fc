//! The time an operation is applied at.

use vstd::prelude::*;

verus! {

/// A reading of the host's clock.
///
/// Credits accrue by slots; the bonus window is measured in seconds.
#[derive(Clone, Copy, Debug, PartialEq, Eq, Structural)]
pub struct Moment {
    /// The current slot.
    pub slot: u64,
    /// Seconds since the Unix epoch.
    pub unix_timestamp: i64,
}

} // verus!
