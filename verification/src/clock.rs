//! The time of an operation.

use vstd::prelude::*;

verus! {

/// The time at which an operation runs, as the host supplies it.
#[derive(Clone, Copy, Debug, PartialEq, Eq, Structural)]
pub struct Clock {
    /// Seconds since the Unix epoch.
    pub unix_timestamp: i64,
}

} // verus!
