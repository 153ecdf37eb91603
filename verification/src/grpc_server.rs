//! The clock service of the master: it answers a slave's Cristian time request
//! with the time its system clock shows; a slave sets its own clock to the answer.
use vstd::prelude::*;
use vstd::arithmetic::div_mod::{
    lemma_div_denominator,
    lemma_fundamental_div_mod,
};
use crate::drift::drifted_nanos;
use crate::quartz_clock::{QuartzUtcClock, ticked_time};
use crate::time_of_day::{
    TimeOfDay,
    hour_of,
    minute_of,
    second_of,
    nanosecond_of,
    time_plus,
    hms_milli,
    valid_time,
};

verus! {

/// The answer to a Cristian time request: the time of day a clock shows.
#[derive(Clone, Copy, Debug, PartialEq, Eq, Structural)]
pub struct CristianTimeResponse {
    pub hours: u32,
    pub minutes: u32,
    pub seconds: u32,
    pub milliseconds: u32,
}

/// The answer that reports the time of day `t`.
pub open spec fn reading_of(t: (nat, nat)) -> CristianTimeResponse {
    CristianTimeResponse {
        hours: hour_of(t) as u32,
        minutes: minute_of(t) as u32,
        seconds: second_of(t) as u32,
        milliseconds: (nanosecond_of(t) / 1_000_000) as u32,
    }
}

/// Whether an answer names a time of day: every part in its range, with a
/// millisecond from 1,000 to 1,999 (a leap second) after second 59 only.
pub open spec fn response_is_time(r: CristianTimeResponse) -> bool {
    &&& r.hours < 24
    &&& r.minutes < 60
    &&& r.seconds < 60
    &&& r.milliseconds < 2000
    &&& r.milliseconds >= 1000 ==> r.seconds == 59
}

/// The time of day an answer names.
pub open spec fn response_time(r: CristianTimeResponse) -> (nat, nat) {
    hms_milli(r.hours as nat, r.minutes as nat, r.seconds as nat, r.milliseconds as nat)
}

/// The time of day a clock showing `t` shows once `answer`, where there is one, is
/// applied to it.
pub open spec fn answered_time(t: (nat, nat), answer: Option<CristianTimeResponse>) -> (nat, nat) {
    match answer {
        Some(r) => response_time(r),
        None => t,
    }
}

/// The master's answer: a copy of its system clock, ticked, and what that copy shows.
/// The copy is what the system clock becomes.
pub fn cristian_time(system_clock: &QuartzUtcClock) -> (answer: (QuartzUtcClock, CristianTimeResponse))
    ensures
        answer.0.drift_ppm() == system_clock.drift_ppm(),
        answer.0.anchor() == system_clock.anchor(),
        exists|now: nat|
            #![trigger ticked_time(system_clock.time_of_day(), (now - system_clock.origin_nanos()) as nat, system_clock.drift_ppm())]
            now >= system_clock.origin_nanos() && answer.0.origin_nanos() == now
                && answer.0.time_of_day() == ticked_time(
                system_clock.time_of_day(),
                (now - system_clock.origin_nanos()) as nat,
                system_clock.drift_ppm(),
            ),
        answer.1 == reading_of(answer.0.time_of_day()),
{
    let mut clock = *system_clock;
    clock.tick_time();
    let response = CristianTimeResponse {
        hours: clock.hour(),
        minutes: clock.minute(),
        seconds: clock.second(),
        milliseconds: clock.millisecond(),
    };
    (clock, response)
}

/// A slave sets its clock to the master's answer. Returns whether the answer named a
/// time of day; where it does not, the clock is left as it is.
pub fn apply_cristian_time(clock: &mut QuartzUtcClock, response: &CristianTimeResponse) -> (applied: bool)
    ensures
        applied == response_is_time(*response),
        applied ==> final(clock).time_of_day() == response_time(*response),
        applied ==> reading_of(final(clock).time_of_day()) == *response,
        !applied ==> final(clock).time_of_day() == old(clock).time_of_day(),
        final(clock).drift_ppm() == old(clock).drift_ppm(),
        final(clock).anchor() == old(clock).anchor(),
        final(clock).origin_nanos() == old(clock).origin_nanos(),
{
    match TimeOfDay::from_hms_milli(
        response.hours,
        response.minutes,
        response.seconds,
        response.milliseconds,
    ) {
        Some(time) => {
            clock.set_time(time);
            true
        },
        None => false,
    }
}

/// One frame's update of the clocks: where the slave's request has been answered, the
/// system clock is set to the answer; then the true clock and the system clock tick.
pub fn update_clocks(
    system_clock: &mut QuartzUtcClock,
    actual_clock: &mut QuartzUtcClock,
    answer: Option<CristianTimeResponse>,
)
    requires
        answer matches Some(r) ==> response_is_time(r),
    ensures
        final(actual_clock).drift_ppm() == old(actual_clock).drift_ppm(),
        final(actual_clock).anchor() == old(actual_clock).anchor(),
        exists|now: nat|
            #![trigger ticked_time(old(actual_clock).time_of_day(), (now - old(actual_clock).origin_nanos()) as nat, old(actual_clock).drift_ppm())]
            now >= old(actual_clock).origin_nanos() && final(actual_clock).origin_nanos() == now
                && final(actual_clock).time_of_day() == ticked_time(
                old(actual_clock).time_of_day(),
                (now - old(actual_clock).origin_nanos()) as nat,
                old(actual_clock).drift_ppm(),
            ),
        final(system_clock).drift_ppm() == old(system_clock).drift_ppm(),
        final(system_clock).anchor() == old(system_clock).anchor(),
        exists|now: nat|
            #![trigger ticked_time(answered_time(old(system_clock).time_of_day(), answer), (now - old(system_clock).origin_nanos()) as nat, old(system_clock).drift_ppm())]
            now >= old(system_clock).origin_nanos() && final(system_clock).origin_nanos() == now
                && final(system_clock).time_of_day() == ticked_time(
                answered_time(old(system_clock).time_of_day(), answer),
                (now - old(system_clock).origin_nanos()) as nat,
                old(system_clock).drift_ppm(),
            ),
{
    match answer {
        Some(response) => {
            apply_cristian_time(system_clock, &response);
        },
        None => {},
    }
    let ghost set = *system_clock;
    actual_clock.tick_time();
    system_clock.tick_time();
    proof {
        assert(set.time_of_day() == answered_time(old(system_clock).time_of_day(), answer));
    }
}

/// The answer that reports a valid time of day always names a time of day, and the
/// time it names is the time it reports, cut to the millisecond: a slave that applies
/// the master's answer shows the master's time to the millisecond.
pub proof fn lemma_answer_roundtrip(t: (nat, nat))
    requires
        valid_time(t),
    ensures
        response_is_time(reading_of(t)),
        response_time(reading_of(t)) == (t.0, (t.1 - t.1 % 1_000_000) as nat),
{
    let h = t.0 / 3600;
    let m = (t.0 / 60) % 60;
    let s = t.0 % 60;
    let ms = t.1 / 1_000_000;
    assert(t.0 / 3600 == (t.0 / 60) / 60) by {
        lemma_div_denominator(t.0 as int, 60, 60);
    }
    assert(t.0 == (t.0 / 60) * 60 + s && t.0 / 60 == h * 60 + m) by {
        lemma_fundamental_div_mod(t.0 as int, 60);
        lemma_fundamental_div_mod((t.0 / 60) as int, 60);
    }
    assert(t.1 == ms * 1_000_000 + t.1 % 1_000_000) by {
        lemma_fundamental_div_mod(t.1 as int, 1_000_000);
    }
    assert(h * 3600 + m * 60 + s == t.0);
}

} // verus!
