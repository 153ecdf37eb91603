//! The time of day that a clock shows: a point in the 24 hours after midnight,
//! with nanosecond precision, held as chrono's `NaiveTime` holds it, leap seconds
//! included.
use vstd::prelude::*;
use vstd::arithmetic::div_mod::{
    lemma_add_mod_noop,
    lemma_fundamental_div_mod,
    lemma_fundamental_div_mod_converse,
    lemma_mod_multiples_vanish,
    lemma_small_mod,
};
use chrono::Timelike;
use crate::duration::Duration;

verus! {

/// Nanoseconds in a day of 86,400 seconds.
pub open spec fn nanos_per_day() -> int {
    86_400_000_000_000
}

/// The time of day `delta` nanoseconds after (or, where it is negative, before) the
/// time of day `t`: whole days are dropped, as on the face of a clock.
pub open spec fn shifted(t: nat, delta: int) -> nat {
    ((t + delta) % nanos_per_day()) as nat
}

/// A time of day as chrono's `NaiveTime` holds it: whole seconds after midnight and
/// nanoseconds within the second. The nanoseconds reach 1,000,000,000 or more only
/// inside a leap second, which chrono lets follow any second `:59`.
pub open spec fn valid_time(t: (nat, nat)) -> bool {
    &&& t.0 < 86_400
    &&& t.1 < 2_000_000_000
    &&& t.1 >= 1_000_000_000 ==> t.0 % 60 == 59
}

/// Whether the time of day `t` lies inside a leap second.
pub open spec fn in_leap_second(t: (nat, nat)) -> bool {
    t.1 >= 1_000_000_000
}

/// The time of day `t` in nanoseconds after midnight (outside a leap second).
pub open spec fn time_nanos(t: (nat, nat)) -> nat {
    t.0 * 1_000_000_000 + t.1
}

/// The time of day `n` nanoseconds after midnight.
pub open spec fn from_nanos(n: nat) -> (nat, nat) {
    (n / 1_000_000_000, n % 1_000_000_000)
}

/// The time of day `delta` nanoseconds after (or, where it is negative, before) `t`,
/// as chrono's `NaiveTime + TimeDelta` gives it. Outside a leap second the two are
/// added in nanoseconds and whole days dropped. Inside one, a span of under a second
/// that stays within it, or goes back out of it into the second before, is added to
/// the nanoseconds; any other span is added as if the leap second were the second
/// after `:59` (going back) or `:59` itself (going forward).
pub open spec fn time_plus(t: (nat, nat), delta: int) -> (nat, nat) {
    let secs_to_add = if delta >= 0 { delta / 1_000_000_000 } else { -((-delta) / 1_000_000_000) };
    let frac_to_add = delta - secs_to_add * 1_000_000_000;
    if in_leap_second(t) {
        if secs_to_add > 0 || (frac_to_add > 0 && t.1 + frac_to_add >= 2_000_000_000) {
            from_nanos(shifted((time_nanos(t) - 1_000_000_000) as nat, delta))
        } else if secs_to_add < 0 {
            from_nanos(shifted(time_nanos(t), delta))
        } else {
            (t.0, (t.1 + frac_to_add) as nat)
        }
    } else {
        from_nanos(shifted(time_nanos(t), delta))
    }
}

/// The hour of the time of day `t`.
pub open spec fn hour_of(t: (nat, nat)) -> nat {
    t.0 / 3600
}

/// The minute within the hour of the time of day `t`.
pub open spec fn minute_of(t: (nat, nat)) -> nat {
    (t.0 / 60) % 60
}

/// The second within the minute of the time of day `t`.
pub open spec fn second_of(t: (nat, nat)) -> nat {
    t.0 % 60
}

/// The nanoseconds since the last whole second of the time of day `t`; from
/// 1,000,000,000 on inside a leap second.
pub open spec fn nanosecond_of(t: (nat, nat)) -> nat {
    t.1
}

/// The time of day `hour:minute:second.milli`.
pub open spec fn hms_milli(hour: nat, minute: nat, second: nat, milli: nat) -> (nat, nat) {
    (hour * 3600 + minute * 60 + second, milli * 1_000_000)
}

/// A time of day.
#[derive(Clone, Copy, Debug)]
pub struct TimeOfDay {
    secs: u32,
    frac: u32,
}

impl View for TimeOfDay {
    type V = (nat, nat);

    /// Seconds after midnight and nanoseconds within the second.
    closed spec fn view(&self) -> (nat, nat) {
        (self.secs as nat, self.frac as nat)
    }
}

impl TimeOfDay {
    #[verifier::type_invariant]
    pub closed spec fn inv(&self) -> bool {
        valid_time(self@)
    }

    /// Every time of day is valid.
    pub broadcast proof fn lemma_inv(t: &TimeOfDay)
        requires
            t.inv(),
        ensures
            #[trigger] valid_time(t@),
    {
    }

    /// The time `hour:min:sec.milli`, or `None` where one of the parts is out of range.
    /// A millisecond from 1,000 to 1,999 stands for a leap second, after second 59 only.
    pub fn from_hms_milli(hour: u32, min: u32, sec: u32, milli: u32) -> (r: Option<TimeOfDay>)
        ensures
            r is Some <==> (hour < 24 && min < 60 && sec < 60 && milli < 2000 && (milli >= 1000
                ==> sec == 59)),
            r matches Some(t) ==> {
                &&& t@ == hms_milli(hour as nat, min as nat, sec as nat, milli as nat)
                &&& hour_of(t@) == hour
                &&& minute_of(t@) == min
                &&& second_of(t@) == sec
                &&& nanosecond_of(t@) / 1_000_000 == milli
            },
    {
        if hour >= 24 || min >= 60 || sec >= 60 || milli >= 2000 || (milli >= 1000 && sec != 59) {
            return None;
        }
        let t = TimeOfDay { secs: hour * 3600 + min * 60 + sec, frac: milli * 1_000_000 };
        proof {
            lemma_fundamental_div_mod_converse(t.secs as int, 3600, hour as int, (min * 60 + sec) as int);
            lemma_fundamental_div_mod_converse((t.secs / 60) as int, 60, hour as int, min as int);
            lemma_fundamental_div_mod_converse(t.secs as int, 60, (hour * 60 + min) as int, sec as int);
            lemma_fundamental_div_mod_converse(t.frac as int, 1_000_000, milli as int, 0);
        }
        Some(t)
    }

    /// The time `secs` seconds and `nano` nanoseconds after midnight, or `None` where
    /// `secs` is a day or more, or `nano` is two seconds or more, or `nano` is a second
    /// or more (a leap second) after a second other than `:59`.
    pub fn from_num_seconds_from_midnight(secs: u32, nano: u32) -> (r: Option<TimeOfDay>)
        ensures
            r is Some <==> valid_time((secs as nat, nano as nat)),
            r matches Some(t) ==> t@ == (secs as nat, nano as nat),
    {
        if secs >= 86_400 || nano >= 2_000_000_000 || (nano >= 1_000_000_000 && secs % 60 != 59) {
            return None;
        }
        Some(TimeOfDay { secs, frac: nano })
    }

    /// The hour, from 0 to 23.
    pub fn hour(&self) -> (h: u32)
        ensures
            h == hour_of(self@),
            h < 24,
    {
        proof {
            use_type_invariant(self);
        }
        self.secs / 3600
    }

    /// The minute within the hour, from 0 to 59.
    pub fn minute(&self) -> (m: u32)
        ensures
            m == minute_of(self@),
            m < 60,
    {
        (self.secs / 60) % 60
    }

    /// The second within the minute, from 0 to 59.
    pub fn second(&self) -> (s: u32)
        ensures
            s == second_of(self@),
            s < 60,
    {
        self.secs % 60
    }

    /// The nanoseconds since the last whole second: below 1,000,000,000, or below
    /// 2,000,000,000 inside a leap second.
    pub fn nanosecond(&self) -> (n: u32)
        ensures
            n == nanosecond_of(self@),
            n < 2_000_000_000,
            !in_leap_second(self@) ==> n < 1_000_000_000,
    {
        proof {
            use_type_invariant(self);
        }
        self.frac
    }

    /// chrono's `NaiveTime + TimeDelta`: the time of day `delta` after this one.
    /// Its source (`NaiveTime::overflowing_add_signed`) is what `time_plus` states:
    /// outside a leap second it adds the two in nanoseconds and keeps the remainder
    /// modulo a day; inside one it first settles the leap second as `time_plus` says.
    /// The conversions in and out of chrono's types do not fail on a valid time and span.
    #[verifier::external_body]
    pub(crate) fn plus(self, delta: Duration) -> (t: TimeOfDay)
        ensures
            t@ == time_plus(self@, delta@),
    {
        let time = chrono::NaiveTime::from_num_seconds_from_midnight_opt(self.secs, self.frac).unwrap();
        let span = chrono::TimeDelta::new(delta.secs, delta.nanos as u32).unwrap();
        let sum = time + span;
        TimeOfDay { secs: sum.num_seconds_from_midnight(), frac: sum.nanosecond() }
    }
}

/// The time of day `n` nanoseconds after midnight is a valid time outside a leap
/// second, and counts those nanoseconds.
pub proof fn lemma_from_nanos(n: nat)
    requires
        n < nanos_per_day(),
    ensures
        valid_time(from_nanos(n)),
        !in_leap_second(from_nanos(n)),
        time_nanos(from_nanos(n)) == n,
{
    lemma_fundamental_div_mod(n as int, 1_000_000_000);
}

proof fn lemma_to_nanos(t: (nat, nat))
    requires
        valid_time(t),
        !in_leap_second(t),
    ensures
        time_nanos(t) < nanos_per_day(),
        from_nanos(time_nanos(t)) == t,
{
    lemma_fundamental_div_mod_converse(time_nanos(t) as int, 1_000_000_000, t.0 as int, t.1 as int);
}

/// Every reading of a valid time of day is in its range: the millisecond is below
/// 1,000 outside a leap second.
pub proof fn lemma_readings_bounded(t: (nat, nat))
    requires
        valid_time(t),
    ensures
        hour_of(t) < 24,
        minute_of(t) < 60,
        second_of(t) < 60,
        nanosecond_of(t) / 1_000_000 < 2000,
        !in_leap_second(t) ==> nanosecond_of(t) / 1_000_000 < 1000,
{
}

/// Adding a span to a valid time of day gives a valid time of day; outside a leap
/// second, one outside a leap second again.
pub proof fn lemma_time_plus_valid(t: (nat, nat), delta: int)
    requires
        valid_time(t),
    ensures
        valid_time(time_plus(t, delta)),
        !in_leap_second(t) ==> !in_leap_second(time_plus(t, delta)),
{
    lemma_shifted_in_day(time_nanos(t), delta);
    lemma_shifted_in_day((time_nanos(t) - 1_000_000_000) as nat, delta);
    lemma_from_nanos(shifted(time_nanos(t), delta));
    lemma_from_nanos(shifted((time_nanos(t) - 1_000_000_000) as nat, delta));
}

/// Adding no span leaves a valid time of day as it is.
pub proof fn lemma_time_plus_zero(t: (nat, nat))
    requires
        valid_time(t),
    ensures
        time_plus(t, 0) == t,
{
    if !in_leap_second(t) {
        lemma_to_nanos(t);
        lemma_small_mod(time_nanos(t), nanos_per_day() as nat);
    }
}

/// Outside a leap second, adding a span and then the opposite span gives the time back.
pub proof fn lemma_time_plus_undone(t: (nat, nat), delta: int)
    requires
        valid_time(t),
        !in_leap_second(t),
    ensures
        time_plus(time_plus(t, delta), -delta) == t,
{
    lemma_to_nanos(t);
    lemma_shifted_in_day(time_nanos(t), delta);
    lemma_from_nanos(shifted(time_nanos(t), delta));
    lemma_shift_undone(time_nanos(t), delta);
}

/// Outside a leap second, adding two spans in turn is adding their sum.
pub proof fn lemma_time_plus_compose(t: (nat, nat), a: int, b: int)
    requires
        valid_time(t),
        !in_leap_second(t),
    ensures
        time_plus(time_plus(t, a), b) == time_plus(t, a + b),
{
    lemma_to_nanos(t);
    lemma_shifted_in_day(time_nanos(t), a);
    lemma_from_nanos(shifted(time_nanos(t), a));
    lemma_shift_compose(time_nanos(t), a, b);
}

/// Outside a leap second, adding a whole number of days leaves the time as it is.
pub proof fn lemma_time_plus_whole_days(t: (nat, nat), days: int)
    requires
        valid_time(t),
        !in_leap_second(t),
    ensures
        time_plus(t, days * nanos_per_day()) == t,
{
    lemma_to_nanos(t);
    lemma_shift_whole_days(time_nanos(t), days);
}

/// Shifting the time of day by a span and then by the opposite span gives the
/// time back.
pub proof fn lemma_shift_undone(t: nat, delta: int)
    requires
        t < nanos_per_day(),
    ensures
        shifted(shifted(t, delta), -delta) == t,
{
    lemma_add_mod_noop(t + delta, -delta, nanos_per_day());
    lemma_shift_compose(t, delta, -delta);
    lemma_small_mod(t, nanos_per_day() as nat);
}

/// Shifting the time of day by two spans in turn is shifting it by their sum.
pub proof fn lemma_shift_compose(t: nat, a: int, b: int)
    ensures
        shifted(shifted(t, a), b) == shifted(t, a + b),
{
    lemma_add_mod_noop(t + a, b, nanos_per_day());
    lemma_add_mod_noop(shifted(t, a) as int, b, nanos_per_day());
    assert(((t + a) % nanos_per_day()) % nanos_per_day() == (t + a) % nanos_per_day()) by {
        lemma_small_mod(((t + a) % nanos_per_day()) as nat, nanos_per_day() as nat);
    }
}

/// Shifting the time of day by a whole number of days leaves it as it is.
pub proof fn lemma_shift_whole_days(t: nat, days: int)
    requires
        t < nanos_per_day(),
    ensures
        shifted(t, days * nanos_per_day()) == t,
{
    lemma_mod_multiples_vanish(days, t as int, nanos_per_day());
    lemma_small_mod(t, nanos_per_day() as nat);
}

/// Every shifted time of day lies within the day.
pub proof fn lemma_shifted_in_day(t: nat, delta: int)
    ensures
        shifted(t, delta) < nanos_per_day(),
{
}

} // verus!
