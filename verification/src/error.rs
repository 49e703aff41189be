//! The ways a conversion between a time point and a timestamp can fail.

use vstd::prelude::*;

verus! {

/// Why a conversion between a time point and a timestamp was refused.
#[derive(Clone, Copy, Debug, PartialEq, Eq, Structural, Hash)]
pub enum TimestampError {
    /// The instant lies farther from the epoch than the target can hold.
    RangeOverflow,
    /// The nanoseconds of the timestamp are negative, or one second or more.
    MalformedTimestamp,
}

} // verus!
