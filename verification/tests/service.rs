use clock_synchronization::display::{format_reading, format_with_sign};
use clock_synchronization::drift::DriftRate;
use clock_synchronization::duration::Duration;
use clock_synchronization::grpc_server::{apply_cristian_time, cristian_time, update_clocks, CristianTimeResponse};
use clock_synchronization::quartz_clock::QuartzUtcClock;
use clock_synchronization::time_of_day::TimeOfDay;

fn clock_at(hour: u32, min: u32, sec: u32, milli: u32, ppm: u32) -> QuartzUtcClock {
    QuartzUtcClock::skewed_and_drifted(
        TimeOfDay::from_hms_milli(hour, min, sec, milli).unwrap(),
        Duration::seconds(0),
        DriftRate { parts_per_million: ppm },
    )
}

#[test]
fn cristian_answer_reads_the_ticked_clock() {
    let master = clock_at(14, 30, 0, 0, 0);
    let (ticked, response) = cristian_time(&master);
    assert_eq!(response, CristianTimeResponse { hours: 14, minutes: 30, seconds: 0, milliseconds: 0 });
    assert_eq!((ticked.hour(), ticked.minute(), ticked.second(), ticked.millisecond()), (14, 30, 0, 0));
}

#[test]
fn slave_takes_the_master_time() {
    let master = clock_at(9, 15, 42, 317, 0);
    let (_, response) = cristian_time(&master);
    let mut slave = clock_at(1, 2, 3, 4, 1_000_000);
    assert!(apply_cristian_time(&mut slave, &response));
    assert_eq!((slave.hour(), slave.minute(), slave.second(), slave.millisecond()), (9, 15, 42, 317));
}

#[test]
fn slave_refuses_an_answer_that_is_no_time() {
    let mut slave = clock_at(1, 2, 3, 4, 1_000_000);
    let bad = CristianTimeResponse { hours: 24, minutes: 0, seconds: 0, milliseconds: 0 };
    assert!(!apply_cristian_time(&mut slave, &bad));
    assert_eq!((slave.hour(), slave.minute(), slave.second(), slave.millisecond()), (1, 2, 3, 4));
    let bad_milli = CristianTimeResponse { hours: 0, minutes: 0, seconds: 58, milliseconds: 1000 };
    assert!(!apply_cristian_time(&mut slave, &bad_milli));
    let bad_leap = CristianTimeResponse { hours: 0, minutes: 0, seconds: 59, milliseconds: 2000 };
    assert!(!apply_cristian_time(&mut slave, &bad_leap));
    assert_eq!((slave.hour(), slave.minute(), slave.second(), slave.millisecond()), (1, 2, 3, 4));
}

#[test]
fn slave_takes_a_leap_second_answer() {
    let mut slave = clock_at(1, 2, 3, 4, 1_000_000);
    let leap = CristianTimeResponse { hours: 23, minutes: 59, seconds: 59, milliseconds: 1500 };
    assert!(apply_cristian_time(&mut slave, &leap));
    assert_eq!((slave.hour(), slave.minute(), slave.second(), slave.millisecond()), (23, 59, 59, 1500));
    let master = clock_at(23, 59, 59, 1250, 0);
    let (_, response) = cristian_time(&master);
    assert_eq!(response, CristianTimeResponse { hours: 23, minutes: 59, seconds: 59, milliseconds: 1250 });
}

#[test]
fn format_with_sign_pads_to_two_digits() {
    assert_eq!(format_with_sign(5), "+05");
    assert_eq!(format_with_sign(0), "+00");
    assert_eq!(format_with_sign(-30), "-30");
    assert_eq!(format_with_sign(-7), "-07");
    assert_eq!(format_with_sign(59), "+59");
    assert_eq!(format_with_sign(123), "+123");
    assert_eq!(format_with_sign(i64::MAX), "+9223372036854775807");
}

#[test]
fn format_reading_pads_each_part() {
    assert_eq!(format_reading(1, 22, 3, 45), " 01 : 22 : 03 . 045 ");
    assert_eq!(format_reading(23, 59, 59, 999), " 23 : 59 : 59 . 999 ");
    assert_eq!(format_reading(0, 0, 0, 0), " 00 : 00 : 00 . 000 ");
}

#[test]
fn signed_text_reads_back_as_the_number() {
    for num in [-100_000, -59, -7, -1, 0, 1, 9, 10, 59, 1234, i64::MAX, i64::MIN + 1] {
        assert_eq!(format_with_sign(num).parse::<i64>(), Ok(num));
    }
}

#[test]
fn update_clocks_applies_the_answer_then_ticks() {
    let mut system = clock_at(1, 2, 3, 4, 0);
    let mut actual = clock_at(5, 6, 7, 8, 0);
    let answer = CristianTimeResponse { hours: 9, minutes: 15, seconds: 42, milliseconds: 317 };
    update_clocks(&mut system, &mut actual, Some(answer));
    assert_eq!((system.hour(), system.minute(), system.second(), system.millisecond()), (9, 15, 42, 317));
    assert_eq!((actual.hour(), actual.minute(), actual.second(), actual.millisecond()), (5, 6, 7, 8));
    update_clocks(&mut system, &mut actual, None);
    assert_eq!((system.hour(), system.minute(), system.second(), system.millisecond()), (9, 15, 42, 317));
}
