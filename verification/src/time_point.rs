//! An instant on the wall clock, held as a signed count of nanoseconds from
//! the epoch.

use crate::duration::Duration;
use std::cmp::Ordering;
use vstd::prelude::*;

verus! {

/// The farthest a [`TimePoint`] can lie from the epoch, on either side, in
/// nanoseconds. It is the longest span a [`Duration`] can hold, so the
/// distance between a time point and the epoch is always a `Duration`.
pub const MAX_OFFSET_NANOS: i128 = 18_446_744_073_709_551_615_999_999_999;

/// An instant on the wall clock. Instants are ordered from earlier to later.
#[derive(Clone, Copy, Debug, PartialEq, Eq, Structural, Ord, Hash)]
pub struct TimePoint {
    nanos: i128,
}

impl View for TimePoint {
    type V = int;

    /// The instant as nanoseconds after the epoch; negative before it.
    closed spec fn view(&self) -> int {
        self.nanos as int
    }
}

impl PartialOrd for TimePoint {
    /// Earlier instants come first.
    fn partial_cmp(&self, other: &TimePoint) -> (r: Option<Ordering>) {
        if self.nanos < other.nanos {
            Some(Ordering::Less)
        } else if self.nanos > other.nanos {
            Some(Ordering::Greater)
        } else {
            Some(Ordering::Equal)
        }
    }
}

impl vstd::std_specs::cmp::PartialOrdSpecImpl for TimePoint {
    open spec fn obeys_partial_cmp_spec() -> bool {
        true
    }

    /// Time points compare as their offsets from the epoch do.
    open spec fn partial_cmp_spec(&self, other: &TimePoint) -> Option<Ordering> {
        if self@ < other@ {
            Some(Ordering::Less)
        } else if self@ > other@ {
            Some(Ordering::Greater)
        } else {
            Some(Ordering::Equal)
        }
    }
}

impl TimePoint {
    /// Whether an instant `offset` nanoseconds after the epoch can be held.
    pub open spec fn in_range(offset: int) -> bool {
        -MAX_OFFSET_NANOS <= offset <= MAX_OFFSET_NANOS
    }

    /// Every `TimePoint` that executable code holds lies in the range.
    #[verifier::type_invariant]
    pub open spec fn wf(self) -> bool {
        Self::in_range(self@)
    }

    /// The time point `offset` nanoseconds after the epoch, for an offset
    /// in range.
    pub closed spec fn at_offset(offset: int) -> TimePoint {
        TimePoint { nanos: offset as i128 }
    }

    /// The time point at an offset in range is well formed and lies at that
    /// offset.
    pub proof fn lemma_at_offset(offset: int)
        requires
            Self::in_range(offset),
        ensures
            Self::at_offset(offset).wf(),
            Self::at_offset(offset)@ == offset,
    {
    }

    /// A time point is the time point at its own offset, so two time points
    /// at the same offset are the same value.
    pub proof fn lemma_at_own_offset(self)
        ensures
            Self::at_offset(self@) == self,
    {
    }

    /// The epoch itself.
    pub fn unix_epoch() -> (t: TimePoint)
        ensures
            t.wf(),
            t@ == 0,
    {
        TimePoint { nanos: 0 }
    }

    /// The instant `nanos` nanoseconds after the epoch (before it, for a
    /// negative count); `None` when that lies out of range.
    pub fn from_unix_nanos(nanos: i128) -> (r: Option<TimePoint>)
        ensures
            r is Some <==> Self::in_range(nanos as int),
            r matches Some(t) ==> t.wf() && t@ == nanos,
    {
        if -MAX_OFFSET_NANOS <= nanos && nanos <= MAX_OFFSET_NANOS {
            Some(TimePoint { nanos })
        } else {
            None
        }
    }

    /// The instant as nanoseconds after the epoch; negative before it.
    pub fn unix_nanos(&self) -> (nanos: i128)
        ensures
            nanos == self@,
            Self::in_range(nanos as int),
    {
        proof {
            use_type_invariant(self);
        }
        self.nanos
    }

    /// The distance between this instant and the epoch, with its direction:
    /// `Ok` holds the span since the epoch for an instant at or after it,
    /// `Err` the span still to go for an instant before it.
    pub fn duration_since_epoch(&self) -> (r: Result<Duration, Duration>)
        ensures
            r is Ok <==> 0 <= self@,
            r matches Ok(since) ==> since.wf() && since@ == self@,
            r matches Err(before) ==> before.wf() && before@ == -self@,
    {
        proof {
            use_type_invariant(self);
        }
        if self.nanos >= 0 {
            Ok(Duration::from_total_nanos(self.nanos as u128))
        } else {
            Err(Duration::from_total_nanos((-self.nanos) as u128))
        }
    }

    /// The instant `d` later than this one; `None` when that lies out of
    /// range.
    pub fn checked_add(self, d: Duration) -> (r: Option<TimePoint>)
        ensures
            r is Some <==> Self::in_range(self@ + d@),
            r matches Some(t) ==> t.wf() && t@ == self@ + d@,
    {
        proof {
            use_type_invariant(self);
        }
        Self::from_unix_nanos(self.nanos + d.as_nanos() as i128)
    }

    /// The instant `d` earlier than this one; `None` when that lies out of
    /// range.
    pub fn checked_sub(self, d: Duration) -> (r: Option<TimePoint>)
        ensures
            r is Some <==> Self::in_range(self@ - d@),
            r matches Some(t) ==> t.wf() && t@ == self@ - d@,
    {
        proof {
            use_type_invariant(self);
        }
        Self::from_unix_nanos(self.nanos - d.as_nanos() as i128)
    }
}

} // verus!
