use clock_synchronization::drift::DriftRate;
use clock_synchronization::duration::Duration;
use clock_synchronization::quartz_clock::QuartzUtcClock;
use chrono::Timelike;
use clock_synchronization::time_of_day::TimeOfDay;

fn now() -> TimeOfDay {
    let time = chrono::Utc::now().time();
    TimeOfDay::from_num_seconds_from_midnight(time.num_seconds_from_midnight(), time.nanosecond()).unwrap()
}

fn rate(parts_per_million: u32) -> DriftRate {
    DriftRate { parts_per_million }
}

fn reading(clock: &QuartzUtcClock) -> (u32, u32, u32, u32) {
    (clock.hour(), clock.minute(), clock.second(), clock.millisecond())
}

fn clock_at(hour: u32, min: u32, sec: u32, milli: u32, drift: DriftRate) -> QuartzUtcClock {
    QuartzUtcClock::skewed_and_drifted(
        TimeOfDay::from_hms_milli(hour, min, sec, milli).unwrap(),
        Duration::seconds(0),
        drift,
    )
}

#[test]
fn quartz_clocks_should_have_correct_bounds() {
    let mut quartz_clocks = [
        QuartzUtcClock::starting_at(now()),
        QuartzUtcClock::skewed_and_drifted(now(), Duration::seconds(10), rate(2_000_000)),
        QuartzUtcClock::skewed_and_drifted(now(), Duration::minutes(-5), rate(100_000)),
        QuartzUtcClock::skewed_and_drifted(now(), Duration::hours(-2), rate(1_000_000)),
    ];

    quartz_clocks.iter_mut().for_each(|quartz_clock| {
        for _ in 0..1 << 20 {
            quartz_clock.tick_time();
            assert!(quartz_clock.hour() < 24);
            assert!(quartz_clock.minute() < 60);
            assert!(quartz_clock.second() < 60);
            assert!(quartz_clock.millisecond() < 1000);
        }
    });
}

#[test]
fn set_time_shows_that_time() {
    let clock = clock_at(13, 45, 7, 250, rate(1_000_000));
    assert_eq!(reading(&clock), (13, 45, 7, 250));
}

#[test]
fn skew_forward_wraps_past_midnight() {
    let mut clock = clock_at(23, 59, 59, 500, rate(1_000_000));
    clock.skew_time(Duration::seconds(1));
    assert_eq!(reading(&clock), (0, 0, 0, 500));
}

#[test]
fn skew_backward_wraps_before_midnight() {
    let mut clock = clock_at(0, 4, 0, 0, rate(1_000_000));
    clock.skew_time(Duration::minutes(-5));
    assert_eq!(reading(&clock), (23, 59, 0, 0));
}

#[test]
fn skew_by_whole_days_changes_nothing() {
    let mut clock = clock_at(8, 30, 15, 125, rate(1_000_000));
    clock.skew_time(Duration::hours(48));
    assert_eq!(reading(&clock), (8, 30, 15, 125));
    clock.skew_time(Duration::hours(-24));
    assert_eq!(reading(&clock), (8, 30, 15, 125));
}

#[test]
fn skew_then_opposite_skew_restores_the_time() {
    let mut clock = clock_at(17, 2, 33, 999, rate(1_000_000));
    let skew = Duration::milliseconds(-123_456_789);
    clock.skew_time(skew);
    assert_eq!(reading(&clock), (6, 44, 57, 210));
    clock.skew_time(skew.neg());
    assert_eq!(reading(&clock), (17, 2, 33, 999));
}

#[test]
fn skews_compose_by_sum() {
    let mut one = clock_at(10, 0, 0, 0, rate(1_000_000));
    let mut two = one;
    one.skew_time(Duration::minutes(90));
    one.skew_time(Duration::seconds(-30));
    two.skew_time(Duration::minutes(90).add(Duration::seconds(-30)));
    assert_eq!(reading(&one), reading(&two));
    assert_eq!(reading(&one), (11, 29, 30, 0));
}

#[test]
fn advance_at_real_time_counts_real_time() {
    let mut clock = clock_at(12, 0, 0, 0, rate(1_000_000));
    clock.advance(61, 500_000_000);
    assert_eq!(reading(&clock), (12, 1, 1, 500));
}

#[test]
fn advance_at_double_rate_counts_double() {
    let mut clock = clock_at(12, 0, 0, 0, rate(2_000_000));
    clock.advance(10, 250_000_000);
    assert_eq!(reading(&clock), (12, 0, 20, 500));
}

#[test]
fn advance_at_a_tenth_counts_a_tenth() {
    let mut clock = clock_at(12, 0, 0, 0, rate(100_000));
    clock.advance(100, 0);
    assert_eq!(reading(&clock), (12, 0, 10, 0));
}

#[test]
fn advance_rounds_down_to_the_nanosecond() {
    let mut clock = clock_at(0, 0, 0, 0, rate(1_500_000));
    clock.advance(0, 999_999);
    // 999_999 * 1.5 = 1_499_998.5 nanoseconds: one millisecond shown.
    assert_eq!(reading(&clock), (0, 0, 0, 1));
}

#[test]
fn drifted_clock_should_be_ahead() {
    let mut drifted = clock_at(9, 0, 0, 0, rate(1_200_000));
    let mut actual = clock_at(9, 0, 0, 0, rate(1_000_000));
    drifted.advance(0, 500_000_000);
    actual.advance(0, 500_000_000);
    assert_eq!(reading(&actual), (9, 0, 0, 500));
    assert_eq!(reading(&drifted), (9, 0, 0, 600));
}

#[test]
fn stopped_clock_stays() {
    let mut clock = clock_at(3, 3, 3, 3, rate(0));
    clock.advance(1000, 0);
    clock.tick_time();
    assert_eq!(reading(&clock), (3, 3, 3, 3));
}

#[test]
fn drift_time_keeps_the_time() {
    let mut clock = clock_at(5, 6, 7, 8, rate(1_000_000));
    clock.drift_time(rate(3_000_000));
    assert_eq!(reading(&clock), (5, 6, 7, 8));
    clock.advance(1, 0);
    assert_eq!(reading(&clock), (5, 6, 10, 8));
}

#[test]
fn default_clock_runs_at_real_time() {
    let mut clock = QuartzUtcClock::starting_at(now());
    let start = reading(&clock);
    clock.set_time(TimeOfDay::from_hms_milli(1, 0, 0, 0).unwrap());
    clock.advance(2, 0);
    assert_eq!(reading(&clock), (1, 0, 2, 0));
    assert!(start.0 < 24 && start.1 < 60 && start.2 < 60 && start.3 < 1000);
}

#[test]
fn tick_moves_a_running_clock_forward_a_little() {
    let mut clock = clock_at(6, 0, 0, 0, rate(1_000_000));
    clock.tick_time();
    let (h, m, s, _) = reading(&clock);
    assert_eq!((h, m), (6, 0));
    assert!(s < 5);
}

#[test]
fn skewed_and_drifted_skews_the_given_time() {
    let start = TimeOfDay::from_hms_milli(0, 2, 0, 0).unwrap();
    let clock = QuartzUtcClock::skewed_and_drifted(start, Duration::minutes(-5), rate(100_000));
    assert_eq!(reading(&clock), (23, 57, 0, 0));
}

#[test]
fn tick_at_measures_from_the_last_tick() {
    let mut clock = clock_at(10, 0, 0, 0, rate(1_000_000));
    clock.tick_at(2_000_000_000);
    assert_eq!(reading(&clock), (10, 0, 2, 0));
    clock.tick_at(3_500_000_000);
    assert_eq!(reading(&clock), (10, 0, 3, 500));
    clock.tick_at(3_500_000_000);
    assert_eq!(reading(&clock), (10, 0, 3, 500));
}

#[test]
fn tick_at_counts_at_the_clock_rate() {
    let mut clock = clock_at(10, 0, 0, 0, rate(2_000_000));
    clock.tick_at(1_000_000_000);
    clock.tick_at(1_250_000_000);
    assert_eq!(reading(&clock), (10, 0, 2, 500));
}

#[test]
fn tick_at_beyond_any_span_keeps_the_time() {
    let mut clock = clock_at(10, 0, 0, 0, rate(u32::MAX));
    clock.tick_at(18_446_744_073_709_551_615_999_999_999);
    assert_eq!(reading(&clock), (10, 0, 0, 0));
    clock.drift_time(rate(1_000_000));
    clock.tick_time();
    assert_eq!(reading(&clock), (10, 0, 0, 0));
}
