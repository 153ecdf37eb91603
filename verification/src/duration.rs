//! A signed span of time with nanosecond precision, held the way chrono's
//! `TimeDelta` holds it: whole seconds and a non-negative nanosecond part.
//! Its range is that of `TimeDelta`: at most `i64::MAX` milliseconds either way.
use vstd::prelude::*;

verus! {

/// Nanoseconds in one second.
pub open spec fn nanos_per_sec() -> int {
    1_000_000_000
}

/// The largest magnitude a span may have, in nanoseconds: `i64::MAX` milliseconds.
pub open spec fn max_span_nanos() -> int {
    9_223_372_036_854_775_807_000_000
}

/// Whether a span of `nanos` nanoseconds can be held.
pub open spec fn span_in_range(nanos: int) -> bool {
    -max_span_nanos() <= nanos <= max_span_nanos()
}

/// A signed span of time.
#[derive(Clone, Copy, Debug)]
pub struct Duration {
    pub(crate) secs: i64,
    pub(crate) nanos: i32,
}

impl View for Duration {
    type V = int;

    /// The span in nanoseconds.
    closed spec fn view(&self) -> int {
        self.secs * nanos_per_sec() + self.nanos
    }
}

impl Duration {
    #[verifier::type_invariant]
    pub closed spec fn inv(&self) -> bool {
        &&& 0 <= self.nanos < nanos_per_sec()
        &&& span_in_range(self.secs * nanos_per_sec() + self.nanos)
    }

    /// Every span is in range.
    pub broadcast proof fn lemma_inv(d: &Duration)
        requires
            d.inv(),
        ensures
            #[trigger] span_in_range(d@),
    {
    }

    /// A span of `secs` seconds and `nanos` nanoseconds, or `None` where `nanos` is a
    /// second or more or the span is out of range.
    pub fn new(secs: i64, nanos: u32) -> (r: Option<Duration>)
        ensures
            r is Some <==> (nanos < 1_000_000_000 && span_in_range(secs * nanos_per_sec() + nanos)),
            r matches Some(d) ==> d@ == secs * nanos_per_sec() + nanos,
    {
        if nanos >= 1_000_000_000 {
            return None;
        }
        if secs < -9_223_372_036_854_776 || secs > 9_223_372_036_854_775 {
            return None;
        }
        if secs == 9_223_372_036_854_775 && nanos > 807_000_000 {
            return None;
        }
        if secs == -9_223_372_036_854_776 && nanos < 193_000_000 {
            return None;
        }
        Some(Duration { secs, nanos: nanos as i32 })
    }

    /// A span of `seconds` seconds.
    pub fn seconds(seconds: i64) -> (d: Duration)
        requires
            span_in_range(seconds * nanos_per_sec()),
        ensures
            d@ == seconds * nanos_per_sec(),
    {
        Duration { secs: seconds, nanos: 0 }
    }

    /// A span of `minutes` minutes.
    pub fn minutes(minutes: i64) -> (d: Duration)
        requires
            span_in_range(minutes * 60 * nanos_per_sec()),
        ensures
            d@ == minutes * 60 * nanos_per_sec(),
    {
        Duration { secs: minutes * 60, nanos: 0 }
    }

    /// A span of `hours` hours.
    pub fn hours(hours: i64) -> (d: Duration)
        requires
            span_in_range(hours * 3600 * nanos_per_sec()),
        ensures
            d@ == hours * 3600 * nanos_per_sec(),
    {
        Duration { secs: hours * 3600, nanos: 0 }
    }

    /// A span of `milliseconds` milliseconds.
    pub fn milliseconds(milliseconds: i64) -> (d: Duration)
        requires
            milliseconds >= -i64::MAX,
        ensures
            d@ == milliseconds * 1_000_000,
    {
        let mut secs: i64 = milliseconds / 1000;
        let mut millis: i64 = milliseconds % 1000;
        if millis < 0 {
            secs = secs - 1;
            millis = millis + 1000;
        }
        assert(secs * 1000 + millis == milliseconds);
        assert(0 <= millis < 1000);
        Duration { secs, nanos: (millis as i32) * 1_000_000 }
    }

    /// The sum of two spans.
    pub fn add(self, rhs: Duration) -> (d: Duration)
        requires
            span_in_range(self@ + rhs@),
        ensures
            d@ == self@ + rhs@,
    {
        proof {
            use_type_invariant(&self);
            use_type_invariant(&rhs);
        }
        let mut secs: i64 = self.secs + rhs.secs;
        let mut nanos: i32 = self.nanos + rhs.nanos;
        if nanos >= 1_000_000_000 {
            nanos = nanos - 1_000_000_000;
            secs = secs + 1;
        }
        Duration { secs, nanos }
    }

    /// The span of the same length in the other direction.
    pub fn neg(self) -> (d: Duration)
        ensures
            d@ == -self@,
    {
        proof {
            use_type_invariant(&self);
        }
        if self.nanos == 0 {
            Duration { secs: -self.secs, nanos: 0 }
        } else {
            Duration { secs: -self.secs - 1, nanos: 1_000_000_000 - self.nanos }
        }
    }
}

} // verus!
