//! A simulated quartz clock: it shows a time of day (UTC), may be skewed from
//! the true time, and may run faster or slower than real time (drift).
use vstd::prelude::*;
use crate::drift::{DriftRate, drifted_nanos, elapsed_nanos, lemma_real_time_keeps_pace};
use crate::duration::{Duration, span_in_range};
use crate::time_of_day::{
    TimeOfDay,
    hour_of,
    minute_of,
    second_of,
    nanosecond_of,
    time_plus,
    valid_time,
    in_leap_second,
    lemma_time_plus_zero,
    lemma_time_plus_valid,
    lemma_time_plus_compose,
    lemma_from_nanos,
    lemma_shifted_in_day,
    shifted,
    time_nanos,
    nanos_per_day,
};

verus! {

broadcast use TimeOfDay::lemma_inv;

/// std's `Instant`, a reading of the monotonic clock, carried as an opaque value.
#[verifier::external_type_specification]
#[verifier::external_body]
pub struct ExInstant(std::time::Instant);

/// std's `Instant::now()`: a reading of the monotonic clock. Nothing is claimed of it.
#[verifier::external_body]
fn instant_now() -> std::time::Instant {
    std::time::Instant::now()
}

/// std's `Instant::elapsed()`: the real time since `instant`. Nothing is claimed of it.
#[verifier::external_body]
fn instant_elapsed(instant: &std::time::Instant) -> std::time::Duration {
    instant.elapsed()
}

/// std's `Duration::as_secs()`: the whole seconds of a duration. Nothing is claimed of it:
/// std's `Duration` is opaque here, and the one it reads is the real time elapsed,
/// of which nothing is claimed either.
#[verifier::external_body]
fn duration_as_secs(duration: &std::time::Duration) -> u64 {
    duration.as_secs()
}

/// std's `Duration::subsec_nanos()`: the fractional part of a duration, in nanoseconds,
/// which std documents to be less than one second.
#[verifier::external_body]
fn duration_subsec_nanos(duration: &std::time::Duration) -> (n: u32)
    ensures
        n < 1_000_000_000,
{
    duration.subsec_nanos()
}

/// A simulated clock showing UTC time of day.
#[derive(Clone, Copy, Debug)]
pub struct QuartzUtcClock {
    current_time: TimeOfDay,
    anchor: std::time::Instant,
    origin_nanos: u128,
    drift_rate: DriftRate,
}

/// The largest span a reading of the monotonic clock can give, in nanoseconds: the
/// longest std `Duration`.
pub open spec fn max_reading_nanos() -> nat {
    18_446_744_073_709_551_615_999_999_999
}

/// The time of day a clock showing `t` and running at `ppm` parts per million shows
/// after `elapsed` nanoseconds of real time: moved on by what it counts, or as it was
/// where that count is beyond what a span can hold (hundreds of millions of years).
pub open spec fn ticked_time(t: (nat, nat), elapsed: nat, ppm: nat) -> (nat, nat) {
    if span_in_range(drifted_nanos(elapsed, ppm) as int) {
        time_plus(t, drifted_nanos(elapsed, ppm) as int)
    } else {
        t
    }
}

impl QuartzUtcClock {
    /// The time of day the clock shows: seconds after midnight and nanoseconds within
    /// the second.
    pub closed spec fn time_of_day(&self) -> (nat, nat) {
        self.current_time@
    }

    /// The clock's drift rate, in parts per million of real time.
    pub closed spec fn drift_ppm(&self) -> nat {
        self.drift_rate.parts_per_million as nat
    }

    /// The reading of the monotonic clock, taken when the clock was made, that the
    /// clock measures real time from.
    pub closed spec fn anchor(&self) -> std::time::Instant {
        self.anchor
    }

    /// The real time after the anchor, in nanoseconds, from which the next tick
    /// measures the real time that has passed.
    pub closed spec fn origin_nanos(&self) -> nat {
        self.origin_nanos as nat
    }

    /// The clock's time of day is valid, and where the next tick measures from is a
    /// reading the monotonic clock can give.
    #[verifier::type_invariant]
    pub closed spec fn inv(&self) -> bool {
        &&& valid_time(self.time_of_day())
        &&& self.origin_nanos() <= max_reading_nanos()
    }

    /// Every clock shows a valid time of day.
    pub broadcast proof fn lemma_inv(clock: &QuartzUtcClock)
        requires
            clock.inv(),
        ensures
            #[trigger] valid_time(clock.time_of_day()),
            clock.origin_nanos() <= max_reading_nanos(),
    {
    }

    /// A clock showing `now` (the system's UTC time of day, as the caller read it),
    /// running at real time; its next tick measures from this call.
    pub fn starting_at(now: TimeOfDay) -> (clock: Self)
        ensures
            clock.time_of_day() == now@,
            clock.drift_ppm() == 1_000_000,
            clock.origin_nanos() == 0,
    {
        proof {
            use_type_invariant(&now);
        }
        QuartzUtcClock {
            current_time: now,
            anchor: instant_now(),
            origin_nanos: 0,
            drift_rate: DriftRate::default(),
        }
    }

    /// A clock showing `now` (the system's UTC time of day, as the caller read it)
    /// skewed by `skew`, and running at `drift_rate`.
    pub fn skewed_and_drifted(now: TimeOfDay, skew: Duration, drift_rate: DriftRate) -> (clock: Self)
        ensures
            clock.time_of_day() == time_plus(now@, skew@),
            clock.drift_ppm() == drift_rate.parts_per_million,
            clock.origin_nanos() == 0,
    {
        let mut clock = Self::starting_at(now);
        clock.skew_time(skew);
        clock.drift_time(drift_rate);
        clock
    }

    /// Sets the time of day the clock shows; its rate stays.
    pub fn set_time(&mut self, time: TimeOfDay)
        ensures
            final(self).time_of_day() == time@,
            final(self).drift_ppm() == old(self).drift_ppm(),
            final(self).anchor() == old(self).anchor(),
            final(self).origin_nanos() == old(self).origin_nanos(),
    {
        proof {
            use_type_invariant(&time);
            use_type_invariant(&*self);
        }
        self.current_time = time;
    }

    /// Moves the clock forward by `duration` (backward where it is negative),
    /// wrapping round midnight; its rate stays.
    pub fn skew_time(&mut self, duration: Duration)
        ensures
            final(self).time_of_day() == time_plus(old(self).time_of_day(), duration@),
            final(self).drift_ppm() == old(self).drift_ppm(),
            final(self).anchor() == old(self).anchor(),
            final(self).origin_nanos() == old(self).origin_nanos(),
    {
        let time = self.current_time.plus(duration);
        proof {
            use_type_invariant(&time);
            use_type_invariant(&*self);
        }
        self.current_time = time;
    }

    /// Sets the rate at which the clock runs; the time it shows stays.
    pub fn drift_time(&mut self, drift_rate: DriftRate)
        ensures
            final(self).drift_ppm() == drift_rate.parts_per_million,
            final(self).time_of_day() == old(self).time_of_day(),
            final(self).anchor() == old(self).anchor(),
            final(self).origin_nanos() == old(self).origin_nanos(),
    {
        proof {
            use_type_invariant(&*self);
        }
        self.drift_rate = drift_rate;
    }

    /// Moves the clock on by what it counts, at its rate, while `elapsed_secs` seconds
    /// and `elapsed_subsec_nanos` nanoseconds of real time pass.
    pub fn advance(&mut self, elapsed_secs: u64, elapsed_subsec_nanos: u32)
        requires
            elapsed_subsec_nanos < 1_000_000_000,
            span_in_range(
                drifted_nanos(elapsed_nanos(elapsed_secs, elapsed_subsec_nanos), old(self).drift_ppm()) as int,
            ),
        ensures
            final(self).time_of_day() == time_plus(
                old(self).time_of_day(),
                drifted_nanos(elapsed_nanos(elapsed_secs, elapsed_subsec_nanos), old(self).drift_ppm()) as int,
            ),
            final(self).drift_ppm() == old(self).drift_ppm(),
            final(self).anchor() == old(self).anchor(),
            final(self).origin_nanos() == old(self).origin_nanos(),
    {
        let counted: u128 = self.drift_rate.scale(elapsed_secs, elapsed_subsec_nanos);
        let secs: i64 = (counted / 1_000_000_000) as i64;
        let nanos: u32 = (counted % 1_000_000_000) as u32;
        let span = Duration::new(secs, nanos).unwrap();
        let time = self.current_time.plus(span);
        proof {
            use_type_invariant(&time);
            use_type_invariant(&*self);
        }
        self.current_time = time;
    }

    /// Moves the clock on by what it counts, at its rate, over the real time from where
    /// the last tick (or its making) left it to `now` (nanoseconds after the anchor);
    /// the next tick measures from `now`.
    pub fn tick_at(&mut self, now: u128)
        requires
            old(self).origin_nanos() <= now <= max_reading_nanos(),
        ensures
            final(self).time_of_day() == ticked_time(
                old(self).time_of_day(),
                (now - old(self).origin_nanos()) as nat,
                old(self).drift_ppm(),
            ),
            final(self).origin_nanos() == now,
            final(self).anchor() == old(self).anchor(),
            final(self).drift_ppm() == old(self).drift_ppm(),
    {
        proof {
            use_type_invariant(&*self);
        }
        let elapsed: u128 = now - self.origin_nanos;
        let secs: u64 = (elapsed / 1_000_000_000) as u64;
        let nanos: u32 = (elapsed % 1_000_000_000) as u32;
        assert(elapsed_nanos(secs, nanos) == elapsed);
        let counted: u128 = self.drift_rate.scale(secs, nanos);
        if counted <= 9_223_372_036_854_775_807_000_000u128 {
            self.advance(secs, nanos);
        }
        proof {
            use_type_invariant(&*self);
        }
        self.origin_nanos = now;
    }

    /// Moves the clock on by what it counts, at its rate, over the real time since it
    /// was last ticked (or made), read from the monotonic clock; the next tick measures
    /// from this reading. Where that count is beyond what a span can hold (hundreds of
    /// millions of years), the time it shows stays.
    pub fn tick_time(&mut self)
        ensures
            final(self).drift_ppm() == old(self).drift_ppm(),
            final(self).anchor() == old(self).anchor(),
            exists|now: nat|
                #![trigger ticked_time(old(self).time_of_day(), (now - old(self).origin_nanos()) as nat, old(self).drift_ppm())]
                now >= old(self).origin_nanos() && final(self).origin_nanos() == now
                    && final(self).time_of_day() == ticked_time(
                    old(self).time_of_day(),
                    (now - old(self).origin_nanos()) as nat,
                    old(self).drift_ppm(),
                ),
    {
        proof {
            use_type_invariant(&*self);
        }
        let reading = instant_elapsed(&self.anchor);
        let secs = duration_as_secs(&reading);
        let nanos = duration_subsec_nanos(&reading);
        let now: u128 = (secs as u128) * 1_000_000_000 + (nanos as u128);
        if now >= self.origin_nanos {
            self.tick_at(now);
            assert(ticked_time(old(self).time_of_day(), (now - old(self).origin_nanos()) as nat, old(self).drift_ppm()) == self.time_of_day());
        } else {
            // std's monotonic clock never reads earlier than before; where it would,
            // no real time is counted.
            proof {
                lemma_time_plus_zero(self.time_of_day());
                assert(drifted_nanos(0, self.drift_ppm()) == 0);
                assert(ticked_time(
                    old(self).time_of_day(),
                    (old(self).origin_nanos() - old(self).origin_nanos()) as nat,
                    old(self).drift_ppm(),
                ) == self.time_of_day());
            }
        }
    }

    /// The hour the clock shows, from 0 to 23.
    pub fn hour(&self) -> (h: u32)
        ensures
            h == hour_of(self.time_of_day()),
            h < 24,
    {
        self.current_time.hour()
    }

    /// The minute the clock shows, from 0 to 59.
    pub fn minute(&self) -> (m: u32)
        ensures
            m == minute_of(self.time_of_day()),
            m < 60,
    {
        self.current_time.minute()
    }

    /// The second the clock shows, from 0 to 59.
    pub fn second(&self) -> (s: u32)
        ensures
            s == second_of(self.time_of_day()),
            s < 60,
    {
        self.current_time.second()
    }

    /// The millisecond the clock shows, from 0 to 999, or up to 1,999 inside a
    /// leap second.
    pub fn millisecond(&self) -> (ms: u32)
        ensures
            ms == nanosecond_of(self.time_of_day()) / 1_000_000,
            ms < 2000,
            !in_leap_second(self.time_of_day()) ==> ms < 1000,
    {
        self.current_time.nanosecond() / 1_000_000
    }
}

/// At real time, a tick moves a clock (outside a leap second) on by exactly the real
/// time that has passed, however little, wrapping round midnight.
pub proof fn lemma_real_time_tick(t: (nat, nat), elapsed: nat)
    requires
        valid_time(t),
        !in_leap_second(t),
        span_in_range(elapsed as int),
    ensures
        !in_leap_second(ticked_time(t, elapsed, 1_000_000)),
        time_nanos(ticked_time(t, elapsed, 1_000_000)) as int == ((time_nanos(t) + elapsed) as int) % nanos_per_day(),
{
    lemma_real_time_keeps_pace(elapsed);
    lemma_time_plus_valid(t, elapsed as int);
    lemma_shifted_in_day(time_nanos(t), elapsed as int);
    lemma_from_nanos(shifted(time_nanos(t), elapsed as int));
}

/// At real time, ticking a clock (outside a leap second) over one span of real time and
/// then over another gives the same time as one tick over both: no span is lost.
pub proof fn lemma_ticks_compose(t: (nat, nat), a: nat, b: nat)
    requires
        valid_time(t),
        !in_leap_second(t),
        span_in_range((a + b) as int),
    ensures
        ticked_time(ticked_time(t, a, 1_000_000), b, 1_000_000) == ticked_time(t, a + b, 1_000_000),
{
    lemma_real_time_keeps_pace(a);
    lemma_real_time_keeps_pace(b);
    lemma_real_time_keeps_pace(a + b);
    lemma_time_plus_compose(t, a as int, b as int);
}

/// A tick whose count a span can hold moves the clock on by that count.
pub proof fn lemma_tick_counts_every_span(t: (nat, nat), elapsed: nat, ppm: nat)
    requires
        span_in_range(drifted_nanos(elapsed, ppm) as int),
    ensures
        ticked_time(t, elapsed, ppm) == time_plus(t, drifted_nanos(elapsed, ppm) as int),
{
}

} // verus!
