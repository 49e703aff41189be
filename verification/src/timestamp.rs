//! The canonical timestamp and its conversions from and to a time point.
//!
//! A timestamp splits an instant into whole seconds since the epoch and a
//! fraction in nanoseconds that is never negative, also before the epoch:
//! the seconds are rounded down, and the fraction counts up from there.

use crate::duration::{Duration, NANOS_PER_SEC};
use crate::error::TimestampError;
use crate::time_point::TimePoint;
use vstd::prelude::*;

verus! {

/// An instant as whole seconds since the epoch plus a fraction in
/// nanoseconds. In canonical form the fraction lies in `[0, 1e9)` whatever
/// the sign of the seconds.
#[derive(Clone, Copy, Debug, PartialEq, Eq, Structural, Hash)]
pub struct Timestamp {
    /// Whole seconds since the epoch, rounded down.
    pub seconds: i64,
    /// Nanoseconds past `seconds`.
    pub nanos: i32,
}

impl Timestamp {
    /// Whether the fraction lies in `[0, 1e9)`.
    pub open spec fn spec_is_canonical(&self) -> bool {
        0 <= self.nanos < NANOS_PER_SEC
    }

    /// The instant that the timestamp denotes, in nanoseconds after the
    /// epoch: `seconds * 1e9 + nanos`.
    pub open spec fn offset_nanos(self) -> int {
        self.seconds * NANOS_PER_SEC + self.nanos
    }

    /// Whether the instant `offset` nanoseconds after the epoch has a
    /// timestamp: its seconds, rounded down, fit in 64 bits.
    pub open spec fn representable(offset: int) -> bool {
        i64::MIN * NANOS_PER_SEC <= offset < (i64::MAX + 1) * NANOS_PER_SEC
    }

    /// What encoding a time point gives. The seconds are its offset from the
    /// epoch divided by one second, rounded down, and the fraction is the
    /// remainder; `RangeOverflow` when the seconds do not fit in 64 bits.
    pub open spec fn encoded(time: TimePoint) -> Result<Timestamp, TimestampError> {
        let seconds = time@ / (NANOS_PER_SEC as int);
        let nanos = time@ % (NANOS_PER_SEC as int);
        if i64::MIN <= seconds <= i64::MAX {
            Ok(Timestamp { seconds: seconds as i64, nanos: nanos as i32 })
        } else {
            Err(TimestampError::RangeOverflow)
        }
    }

    /// What decoding the timestamp gives: the time point at the instant it
    /// denotes; `MalformedTimestamp` unless it is canonical, `RangeOverflow`
    /// when no time point lies at that instant.
    pub open spec fn decoded(self) -> Result<TimePoint, TimestampError> {
        if !self.is_canonical() {
            Err(TimestampError::MalformedTimestamp)
        } else if !TimePoint::in_range(self.offset_nanos()) {
            Err(TimestampError::RangeOverflow)
        } else {
            Ok(TimePoint::at_offset(self.offset_nanos()))
        }
    }

    /// The timestamp with the given seconds and nanoseconds.
    pub fn new(seconds: i64, nanos: i32) -> (ts: Timestamp)
        ensures
            ts == (Timestamp { seconds, nanos }),
    {
        Timestamp { seconds, nanos }
    }

    /// The timestamp of the epoch: zero seconds, zero nanoseconds.
    pub fn unix_epoch() -> (ts: Timestamp)
        ensures
            ts == (Timestamp { seconds: 0, nanos: 0 }),
    {
        Timestamp { seconds: 0, nanos: 0 }
    }

    /// Whether the fraction lies in `[0, 1e9)`.
    #[verifier::when_used_as_spec(spec_is_canonical)]
    pub fn is_canonical(&self) -> (canonical: bool)
        ensures
            canonical == self.is_canonical(),
    {
        0 <= self.nanos && self.nanos < NANOS_PER_SEC as i32
    }

    /// Encodes a time point: the one canonical timestamp that denotes the
    /// same instant, or `RangeOverflow` when its seconds do not fit in 64
    /// bits.
    pub fn from_time_point(time: TimePoint) -> (r: Result<Timestamp, TimestampError>)
        ensures
            r == Self::encoded(time),
            r is Ok <==> Self::representable(time@),
            r matches Ok(ts) ==> ts.is_canonical() && ts.offset_nanos() == time@,
            r matches Err(e) ==> e == TimestampError::RangeOverflow,
    {
        match time.duration_since_epoch() {
            Ok(since_epoch) => {
                let secs: u64 = since_epoch.as_secs();
                let nanos: u32 = since_epoch.subsec_nanos();
                if secs > i64::MAX as u64 {
                    return Err(TimestampError::RangeOverflow);
                }
                Ok(Timestamp { seconds: secs as i64, nanos: nanos as i32 })
            },
            Err(before_epoch) => {
                let secs: u64 = before_epoch.as_secs();
                let nanos: u32 = before_epoch.subsec_nanos();
                // Whole seconds are negated as they are; any fraction borrows
                // one more second and counts up from there.
                let (borrow, fraction): (i64, u32) = if nanos == 0 {
                    (0, 0)
                } else {
                    (1, NANOS_PER_SEC - nanos)
                };
                match 0i64.checked_sub_unsigned(secs) {
                    Some(whole) => match whole.checked_sub(borrow) {
                        Some(seconds) => Ok(Timestamp { seconds, nanos: fraction as i32 }),
                        None => Err(TimestampError::RangeOverflow),
                    },
                    None => Err(TimestampError::RangeOverflow),
                }
            },
        }
    }

    /// Decodes the timestamp: the time point at the instant it denotes, or
    /// `MalformedTimestamp` when it is not canonical. `RangeOverflow` is for
    /// an instant at which no time point lies; there is none among those
    /// that a canonical timestamp denotes.
    pub fn into_time_point(self) -> (r: Result<TimePoint, TimestampError>)
        ensures
            r == self.decoded(),
            r is Ok <==> self.is_canonical(),
            r matches Ok(time) ==> time.wf() && time@ == self.offset_nanos(),
            r matches Err(e) ==> e == TimestampError::MalformedTimestamp,
    {
        if !self.is_canonical() {
            return Err(TimestampError::MalformedTimestamp);
        }
        let fraction = Duration::from_nanos(self.nanos as u64);
        if self.seconds >= 0 {
            let whole = Duration::from_secs(self.seconds as u64);
            match whole.checked_add(fraction) {
                Some(since_epoch) => match TimePoint::unix_epoch().checked_add(since_epoch) {
                    Some(time) => {
                        proof {
                            time.lemma_at_own_offset();
                        }
                        Ok(time)
                    },
                    None => Err(TimestampError::RangeOverflow),
                },
                None => Err(TimestampError::RangeOverflow),
            }
        } else {
            let whole = Duration::from_secs(Self::magnitude(self.seconds));
            // The fraction is below one second and the magnitude at least
            // one, so the subtraction cannot underflow for a canonical value.
            match whole.checked_sub(fraction) {
                Some(before_epoch) => match TimePoint::unix_epoch().checked_sub(before_epoch) {
                    Some(time) => {
                        proof {
                            time.lemma_at_own_offset();
                        }
                        Ok(time)
                    },
                    None => Err(TimestampError::RangeOverflow),
                },
                None => Err(TimestampError::MalformedTimestamp),
            }
        }
    }

    /// The absolute value of a negative count of seconds.
    fn magnitude(seconds: i64) -> (m: u64)
        requires
            seconds < 0,
        ensures
            m == -seconds,
    {
        (-(seconds + 1)) as u64 + 1
    }

    /// Every timestamp that encoding gives is canonical and denotes the
    /// instant of the time point, and encoding fails, with `RangeOverflow`,
    /// exactly for the instants whose seconds do not fit in 64 bits.
    pub proof fn lemma_encoded_is_canonical(time: TimePoint)
        ensures
            Self::encoded(time) is Ok <==> Self::representable(time@),
            Self::encoded(time) matches Ok(ts) ==> ts.is_canonical() && ts.offset_nanos() == time@,
            Self::encoded(time) matches Err(e) ==> e == TimestampError::RangeOverflow,
    {
    }

    /// A time point whose seconds fit in 64 bits comes back unchanged when
    /// it is encoded and the timestamp decoded.
    pub proof fn lemma_decode_inverts_encode(time: TimePoint)
        requires
            Self::representable(time@),
        ensures
            Self::encoded(time) matches Ok(ts) && ts.decoded() == Ok::<TimePoint, TimestampError>(
                time,
            ),
    {
        time.lemma_at_own_offset();
    }

    /// A canonical timestamp comes back unchanged when it is decoded and the
    /// time point encoded. In particular every canonical timestamp decodes:
    /// a time point lies at each instant that a timestamp can denote.
    pub proof fn lemma_encode_inverts_decode(ts: Timestamp)
        requires
            ts.is_canonical(),
        ensures
            ts.decoded() matches Ok(time) && time.wf() && Self::encoded(time) == Ok::<
                Timestamp,
                TimestampError,
            >(ts),
    {
        TimePoint::lemma_at_offset(ts.offset_nanos());
    }
}

} // verus!
