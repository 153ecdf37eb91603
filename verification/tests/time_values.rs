use chrono::Timelike;
use clock_synchronization::duration::Duration;
use clock_synchronization::quartz_clock::QuartzUtcClock;
use clock_synchronization::time_of_day::TimeOfDay;

#[test]
fn from_hms_milli_reads_back() {
    let t = TimeOfDay::from_hms_milli(23, 59, 58, 999).unwrap();
    assert_eq!((t.hour(), t.minute(), t.second(), t.nanosecond()), (23, 59, 58, 999_000_000));
}

#[test]
fn from_hms_milli_takes_a_leap_second_after_second_59() {
    let t = TimeOfDay::from_hms_milli(12, 30, 59, 1999).unwrap();
    assert_eq!((t.hour(), t.minute(), t.second(), t.nanosecond()), (12, 30, 59, 1_999_000_000));
}

#[test]
fn from_hms_milli_rejects_out_of_range() {
    assert!(TimeOfDay::from_hms_milli(24, 0, 0, 0).is_none());
    assert!(TimeOfDay::from_hms_milli(0, 60, 0, 0).is_none());
    assert!(TimeOfDay::from_hms_milli(0, 0, 60, 0).is_none());
    assert!(TimeOfDay::from_hms_milli(0, 0, 58, 1000).is_none());
    assert!(TimeOfDay::from_hms_milli(0, 0, 59, 2000).is_none());
    assert!(TimeOfDay::from_hms_milli(0, 0, 0, 0).is_some());
}

#[test]
fn duration_new_checks_bounds() {
    assert!(Duration::new(0, 1_000_000_000).is_none());
    assert!(Duration::new(9_223_372_036_854_775, 807_000_000).is_some());
    assert!(Duration::new(9_223_372_036_854_775, 807_000_001).is_none());
    assert!(Duration::new(-9_223_372_036_854_776, 193_000_000).is_some());
    assert!(Duration::new(-9_223_372_036_854_776, 192_999_999).is_none());
    assert!(Duration::new(i64::MAX, 0).is_none());
}

#[test]
fn negative_milliseconds_shift_back() {
    let mut clock = QuartzUtcClock::starting_at(TimeOfDay::from_hms_milli(0, 0, 1, 0).unwrap());
    clock.skew_time(Duration::milliseconds(-1500));
    assert_eq!((clock.hour(), clock.minute(), clock.second(), clock.millisecond()), (23, 59, 59, 500));
    clock.skew_time(Duration::milliseconds(1500).add(Duration::milliseconds(-1)));
    assert_eq!((clock.hour(), clock.minute(), clock.second(), clock.millisecond()), (0, 0, 0, 999));
}

#[test]
fn neg_of_a_fractional_span_turns_back() {
    let mut clock = QuartzUtcClock::starting_at(TimeOfDay::from_hms_milli(12, 0, 0, 0).unwrap());
    clock.skew_time(Duration::milliseconds(2250).neg());
    assert_eq!((clock.hour(), clock.minute(), clock.second(), clock.millisecond()), (11, 59, 57, 750));
}

#[test]
fn span_constructors_scale_their_units() {
    let mut clock = QuartzUtcClock::starting_at(TimeOfDay::from_hms_milli(0, 0, 0, 0).unwrap());
    clock.skew_time(Duration::hours(1));
    clock.skew_time(Duration::minutes(2));
    clock.skew_time(Duration::seconds(3));
    clock.skew_time(Duration::milliseconds(4));
    clock.skew_time(Duration::new(5, 6_000_000).unwrap());
    assert_eq!((clock.hour(), clock.minute(), clock.second(), clock.millisecond()), (1, 2, 8, 10));
}

#[test]
fn from_num_seconds_from_midnight_checks_its_parts() {
    let t = TimeOfDay::from_num_seconds_from_midnight(86_399, 999_999_999).unwrap();
    assert_eq!((t.hour(), t.minute(), t.second(), t.nanosecond()), (23, 59, 59, 999_999_999));
    assert!(TimeOfDay::from_num_seconds_from_midnight(86_400, 0).is_none());
    assert!(TimeOfDay::from_num_seconds_from_midnight(58, 1_000_000_000).is_none());
    assert!(TimeOfDay::from_num_seconds_from_midnight(59, 2_000_000_000).is_none());
    let leap = TimeOfDay::from_num_seconds_from_midnight(59, 1_999_999_999).unwrap();
    assert_eq!((leap.hour(), leap.minute(), leap.second(), leap.nanosecond()), (0, 0, 59, 1_999_999_999));
}

fn chrono_reading(secs: u32, nano: u32, span_secs: i64, span_nanos: u32) -> (u32, u32, u32, u32) {
    let time = chrono::NaiveTime::from_num_seconds_from_midnight_opt(secs, nano).unwrap();
    let sum = time + chrono::TimeDelta::new(span_secs, span_nanos).unwrap();
    (sum.hour(), sum.minute(), sum.second(), sum.nanosecond())
}

#[test]
fn skews_agree_with_chrono_in_and_out_of_leap_seconds() {
    let times = [(0, 0), (86_399, 1_500_000_000), (86_399, 1_999_999_999), (59, 1_000_000_000), (43_259, 1_250_000_000), (3_600, 999_999_999)];
    let spans = [(0, 0), (0, 300_000_000), (0, 700_000_000), (0, 999_999_999), (1, 0), (-1, 800_000_000), (-1, 0), (-2, 500_000_000), (86_400, 1), (-86_401, 0), (3_599, 250_000_000)];
    for (secs, nano) in times {
        for (span_secs, span_nanos) in spans {
            let start = TimeOfDay::from_num_seconds_from_midnight(secs, nano).unwrap();
            let mut clock = QuartzUtcClock::starting_at(start);
            clock.skew_time(Duration::new(span_secs, span_nanos).unwrap());
            let ours = (clock.hour(), clock.minute(), clock.second(), clock.millisecond());
            let (h, m, s, n) = chrono_reading(secs, nano, span_secs, span_nanos);
            assert_eq!(ours, (h, m, s, n / 1_000_000), "time {} {} span {} {}", secs, nano, span_secs, span_nanos);
        }
    }
}

#[test]
fn leap_second_skewed_forward_and_back_lands_after_it() {
    // Inside a leap second, a skew and its opposite do not restore the time.
    let start = TimeOfDay::from_hms_milli(23, 59, 59, 1500).unwrap();
    let mut clock = QuartzUtcClock::starting_at(start);
    clock.skew_time(Duration::seconds(1));
    assert_eq!((clock.hour(), clock.minute(), clock.second(), clock.millisecond()), (0, 0, 0, 500));
    clock.skew_time(Duration::seconds(-1));
    assert_eq!((clock.hour(), clock.minute(), clock.second(), clock.millisecond()), (23, 59, 59, 500));
}
