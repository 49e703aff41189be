//! A non-negative span of time, held as whole seconds plus a nanosecond
//! remainder.

use std::cmp::Ordering;
use vstd::prelude::*;

verus! {

/// Nanoseconds in one second.
pub const NANOS_PER_SEC: u32 = 1_000_000_000;

/// Nanoseconds in one millisecond.
pub const NANOS_PER_MILLI: u32 = 1_000_000;

/// Milliseconds in one second.
pub const MILLIS_PER_SEC: u64 = 1_000;

/// The longest span a [`Duration`] can hold, in nanoseconds:
/// `u64::MAX` seconds and `999_999_999` nanoseconds.
pub const MAX_DURATION_NANOS: u128 = 18_446_744_073_709_551_615_999_999_999;

/// A non-negative span of time: whole seconds plus a sub-second remainder
/// in nanoseconds. The remainder is always below one second. Spans are
/// ordered from shorter to longer.
#[derive(Clone, Copy, Debug, PartialEq, Eq, Structural, Ord, Hash)]
pub struct Duration {
    secs: u64,
    nanos: u32,
}

impl View for Duration {
    type V = nat;

    /// The whole span in nanoseconds.
    open spec fn view(&self) -> nat {
        (self.as_secs() * NANOS_PER_SEC + self.subsec_nanos()) as nat
    }
}

impl PartialOrd for Duration {
    /// Shorter spans come first: seconds decide, and the remainder decides
    /// between equal seconds.
    fn partial_cmp(&self, other: &Duration) -> (r: Option<Ordering>) {
        proof {
            use_type_invariant(self);
            use_type_invariant(other);
        }
        if self.secs < other.secs {
            Some(Ordering::Less)
        } else if self.secs > other.secs {
            Some(Ordering::Greater)
        } else if self.nanos < other.nanos {
            Some(Ordering::Less)
        } else if self.nanos > other.nanos {
            Some(Ordering::Greater)
        } else {
            Some(Ordering::Equal)
        }
    }
}

impl vstd::std_specs::cmp::PartialOrdSpecImpl for Duration {
    open spec fn obeys_partial_cmp_spec() -> bool {
        true
    }

    /// Spans compare as their lengths do.
    open spec fn partial_cmp_spec(&self, other: &Duration) -> Option<Ordering> {
        if self@ < other@ {
            Some(Ordering::Less)
        } else if self@ > other@ {
            Some(Ordering::Greater)
        } else {
            Some(Ordering::Equal)
        }
    }
}

impl Duration {
    /// The whole seconds of the span.
    pub closed spec fn spec_as_secs(&self) -> u64 {
        self.secs
    }

    /// The part of the span below one second, in nanoseconds.
    pub closed spec fn spec_subsec_nanos(&self) -> u32 {
        self.nanos
    }

    /// Every `Duration` that executable code holds keeps its remainder below
    /// one second.
    #[verifier::type_invariant]
    pub open spec fn wf(self) -> bool {
        self.subsec_nanos() < NANOS_PER_SEC
    }

    /// Two well-formed spans of the same length are the same value, so `==`
    /// holds exactly where the order finds the two equal.
    pub proof fn lemma_view_injective(a: Duration, b: Duration)
        requires
            a.wf(),
            b.wf(),
            a@ == b@,
        ensures
            a == b,
    {
    }

    /// A span of `secs` seconds and `nanos` nanoseconds. A count of
    /// nanoseconds of one second or more carries over into the seconds;
    /// `None` when the seconds then no longer fit.
    pub fn new(secs: u64, nanos: u32) -> (r: Option<Duration>)
        ensures
            r is Some <==> secs * NANOS_PER_SEC + nanos <= MAX_DURATION_NANOS,
            r matches Some(d) ==> d.wf() && d@ == secs * NANOS_PER_SEC + nanos,
    {
        let carry: u32 = nanos / NANOS_PER_SEC;
        let rest: u32 = nanos % NANOS_PER_SEC;
        match secs.checked_add(carry as u64) {
            Some(total) => Some(Duration { secs: total, nanos: rest }),
            None => None,
        }
    }

    /// The span of `secs` whole seconds.
    pub fn from_secs(secs: u64) -> (d: Duration)
        ensures
            d.wf(),
            d.as_secs() == secs,
            d.subsec_nanos() == 0,
            d@ == secs * NANOS_PER_SEC,
    {
        Duration { secs, nanos: 0 }
    }

    /// The span of `millis` milliseconds.
    pub fn from_millis(millis: u64) -> (d: Duration)
        ensures
            d.wf(),
            d.as_secs() == millis / MILLIS_PER_SEC,
            d.subsec_nanos() == (millis % MILLIS_PER_SEC) * NANOS_PER_MILLI,
            d@ == millis * NANOS_PER_MILLI,
    {
        let secs: u64 = millis / MILLIS_PER_SEC;
        let sub_millis: u32 = (millis % MILLIS_PER_SEC) as u32;
        Duration { secs, nanos: sub_millis * NANOS_PER_MILLI }
    }

    /// The span of `nanos` nanoseconds.
    pub fn from_nanos(nanos: u64) -> (d: Duration)
        ensures
            d.wf(),
            d.as_secs() == nanos / (NANOS_PER_SEC as u64),
            d.subsec_nanos() == nanos % (NANOS_PER_SEC as u64),
            d@ == nanos,
    {
        let secs: u64 = nanos / (NANOS_PER_SEC as u64);
        let rest: u32 = (nanos % (NANOS_PER_SEC as u64)) as u32;
        assert(nanos == (nanos / 1_000_000_000u64) * 1_000_000_000 + nanos % 1_000_000_000u64);
        Duration { secs, nanos: rest }
    }

    /// The span of `nanos` nanoseconds, for a count that a `Duration` can
    /// hold.
    pub(crate) fn from_total_nanos(nanos: u128) -> (d: Duration)
        requires
            nanos <= MAX_DURATION_NANOS,
        ensures
            d.wf(),
            d@ == nanos,
    {
        let secs: u128 = nanos / (NANOS_PER_SEC as u128);
        let rest: u128 = nanos % (NANOS_PER_SEC as u128);
        assert(nanos == (nanos / 1_000_000_000u128) * 1_000_000_000 + nanos % 1_000_000_000u128);
        Duration { secs: secs as u64, nanos: rest as u32 }
    }

    /// The whole seconds of the span.
    #[verifier::when_used_as_spec(spec_as_secs)]
    pub fn as_secs(&self) -> (secs: u64)
        ensures
            secs == self.as_secs(),
            secs == self@ / (NANOS_PER_SEC as nat),
    {
        proof {
            use_type_invariant(self);
        }
        self.secs
    }

    /// The part of the span below one second, in nanoseconds.
    #[verifier::when_used_as_spec(spec_subsec_nanos)]
    pub fn subsec_nanos(&self) -> (nanos: u32)
        ensures
            nanos == self.subsec_nanos(),
            nanos == self@ % (NANOS_PER_SEC as nat),
            nanos < NANOS_PER_SEC,
    {
        proof {
            use_type_invariant(self);
        }
        self.nanos
    }

    /// The whole span in nanoseconds.
    pub fn as_nanos(&self) -> (nanos: u128)
        ensures
            nanos == self@,
            nanos <= MAX_DURATION_NANOS,
    {
        proof {
            use_type_invariant(self);
        }
        (self.secs as u128) * (NANOS_PER_SEC as u128) + (self.nanos as u128)
    }

    /// The sum of two spans; `None` when it is longer than a `Duration` can
    /// hold.
    pub fn checked_add(self, rhs: Duration) -> (r: Option<Duration>)
        ensures
            r is Some <==> self@ + rhs@ <= MAX_DURATION_NANOS,
            r matches Some(d) ==> d.wf() && d@ == self@ + rhs@,
    {
        proof {
            use_type_invariant(self);
            use_type_invariant(rhs);
        }
        let sum: u32 = self.nanos + rhs.nanos;
        let (carry, nanos): (u64, u32) = if sum >= NANOS_PER_SEC {
            (1, sum - NANOS_PER_SEC)
        } else {
            (0, sum)
        };
        match self.secs.checked_add(rhs.secs) {
            Some(whole) => match whole.checked_add(carry) {
                Some(secs) => Some(Duration { secs, nanos }),
                None => None,
            },
            None => None,
        }
    }

    /// The span left when `rhs` is taken away from `self`; `None` when `rhs`
    /// is the longer one, since a span is never negative.
    pub fn checked_sub(self, rhs: Duration) -> (r: Option<Duration>)
        ensures
            r is Some <==> rhs@ <= self@,
            r matches Some(d) ==> d.wf() && d@ == self@ - rhs@,
    {
        proof {
            use_type_invariant(self);
            use_type_invariant(rhs);
        }
        let (borrow, nanos): (u64, u32) = if self.nanos >= rhs.nanos {
            (0, self.nanos - rhs.nanos)
        } else {
            (1, self.nanos + NANOS_PER_SEC - rhs.nanos)
        };
        match self.secs.checked_sub(rhs.secs) {
            Some(whole) => match whole.checked_sub(borrow) {
                Some(secs) => Some(Duration { secs, nanos }),
                None => None,
            },
            None => None,
        }
    }
}

} // verus!
