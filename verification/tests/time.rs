use macro_runner::error::Error;
use macro_runner::time::{display_duration, Delay, Stopwatch, TimeUnit};

#[test]
fn display_duration_follows_the_two_examples() {
    assert_eq!(display_duration(1_500_000_000), "1.50s");
    assert_eq!(display_duration(250_000_000), "250.00ms");
}

#[test]
fn display_duration_in_nanoseconds() {
    assert_eq!(display_duration(0), "0.00ns");
    assert_eq!(display_duration(7), "7.00ns");
    assert_eq!(display_duration(999), "999.00ns");
}

#[test]
fn display_duration_in_microseconds() {
    assert_eq!(display_duration(1_000), "1.00µs");
    assert_eq!(display_duration(1_500), "1.50µs");
    assert_eq!(display_duration(12_345), "12.34µs");
    assert_eq!(display_duration(999_999), "999.99µs");
}

#[test]
fn display_duration_in_milliseconds() {
    assert_eq!(display_duration(1_000_000), "1.00ms");
    assert_eq!(display_duration(10_000_000), "10.00ms");
    assert_eq!(display_duration(1_005_000), "1.00ms");
    assert_eq!(display_duration(999_999_999), "999.99ms");
}

#[test]
fn display_duration_in_seconds() {
    assert_eq!(display_duration(1_000_000_000), "1.00s");
    assert_eq!(display_duration(59_990_000_000), "59.99s");
    assert_eq!(display_duration(90_000_000_000), "90.00s");
    assert_eq!(display_duration(999_999_999_999), "999.99s");
}

#[test]
fn display_duration_from_a_thousand_seconds_on() {
    assert_eq!(display_duration(1_000_000_000_000), "16m 40s");
    assert_eq!(display_duration(3_599_999_999_999), "59m 59s");
    assert_eq!(display_duration(3_600_000_000_000), "1h 0m");
    assert_eq!(display_duration(86_399_000_000_000), "23h 59m");
    assert_eq!(display_duration(86_400_000_000_000), "1days");
    assert_eq!(display_duration(200_000_000_000_000), "2days");
}

#[test]
fn display_duration_of_the_longest_time() {
    assert_eq!(display_duration(u128::MAX), "3938453320844195178974243days");
}

#[test]
fn time_unit_counts_nanoseconds() {
    assert_eq!(TimeUnit::Nanoseconds.nanos_per_unit(), 1);
    assert_eq!(TimeUnit::Microseconds.nanos_per_unit(), 1_000);
    assert_eq!(TimeUnit::Milliseconds.nanos_per_unit(), 1_000_000);
    assert_eq!(TimeUnit::Seconds.nanos_per_unit(), 1_000_000_000);
}

#[test]
fn time_unit_converts_to_nanoseconds() {
    assert_eq!(TimeUnit::Nanoseconds.to_nanos(17), 17);
    assert_eq!(TimeUnit::Microseconds.to_nanos(17), 17_000);
    assert_eq!(TimeUnit::Milliseconds.to_nanos(250), 250_000_000);
    assert_eq!(TimeUnit::Seconds.to_nanos(3), 3_000_000_000);
    assert_eq!(TimeUnit::Seconds.to_nanos(0), 0);
}

#[test]
fn time_unit_conversion_stops_at_the_largest_count() {
    assert_eq!(TimeUnit::Seconds.to_nanos(u64::MAX), u64::MAX);
    assert_eq!(TimeUnit::Seconds.to_nanos(18_446_744_073), 18_446_744_073_000_000_000);
    assert_eq!(TimeUnit::Seconds.to_nanos(18_446_744_074), u64::MAX);
    assert_eq!(TimeUnit::Nanoseconds.to_nanos(u64::MAX), u64::MAX);
}

#[test]
fn time_unit_suffixes() {
    assert_eq!(TimeUnit::Nanoseconds.suffix(), "ns");
    assert_eq!(TimeUnit::Microseconds.suffix(), "µs");
    assert_eq!(TimeUnit::Milliseconds.suffix(), "ms");
    assert_eq!(TimeUnit::Seconds.suffix(), "s");
}

#[test]
fn delay_new_is_in_seconds() {
    let delay = Delay::new(3);
    assert_eq!(delay.value(), 3);
    assert_eq!(delay.unit(), TimeUnit::Seconds);
    assert_eq!(delay.as_nanos(), 3_000_000_000);
    assert_eq!(delay, Delay::from((3, TimeUnit::Seconds)));
}

#[test]
fn delay_from_number_and_unit() {
    let delay = Delay::from((250, TimeUnit::Milliseconds));
    assert_eq!(delay.value(), 250);
    assert_eq!(delay.unit(), TimeUnit::Milliseconds);
    assert_eq!(delay.as_nanos(), 250_000_000);
    assert_eq!(delay.display(), "250.00ms");
}

#[test]
fn delay_is_not_finished_before_it_is_started() {
    let delay = Delay::from((0, TimeUnit::Nanoseconds));
    assert!(!delay.is_finished());
    assert_eq!(delay.elapsed(), None);
    assert!(!delay.finished_after(0));
    assert!(!delay.finished_after(u128::MAX));
}

#[test]
fn delay_finishes_when_its_length_has_passed() {
    let mut delay = Delay::from((10, TimeUnit::Milliseconds));
    delay.start_wait();
    assert!(!delay.finished_after(0));
    assert!(!delay.finished_after(9_999_999));
    assert!(delay.finished_after(10_000_000));
    assert!(delay.finished_after(10_000_001));
    assert!(delay.elapsed().is_some());
}

#[test]
fn delay_of_no_length_is_finished_once_started() {
    let mut delay = Delay::from((0, TimeUnit::Seconds));
    delay.start_wait();
    assert!(delay.is_finished());
}

#[test]
fn delay_of_an_hour_is_not_finished_at_once() {
    let mut delay = Delay::from((3_600, TimeUnit::Seconds));
    delay.start_wait();
    assert!(!delay.is_finished());
    assert!(!delay.is_finished());
}

#[test]
fn delay_by_the_clock_finishes() {
    let mut delay = Delay::from((2, TimeUnit::Milliseconds));
    let begun = std::time::Instant::now();
    delay.start_wait();
    while !delay.is_finished() {
        assert!(begun.elapsed().as_secs() < 10);
    }
    assert!(begun.elapsed().as_nanos() >= 2_000_000);
}

#[test]
fn stopwatch_starts_stopped() {
    let stopwatch = Stopwatch::new();
    assert!(stopwatch.is_stopped());
    assert!(!stopwatch.is_running());
    assert_eq!(stopwatch.read(), 0);
    assert_eq!(stopwatch.display(), "0.00ns");
    let other = Stopwatch::default();
    assert!(other.is_stopped());
    assert_eq!(other.read(), 0);
}

#[test]
fn stopwatch_runs_and_stops() {
    let mut stopwatch = Stopwatch::start_new();
    assert!(stopwatch.is_running());
    assert!(!stopwatch.is_stopped());
    stopwatch.stop();
    assert!(stopwatch.is_stopped());
    let measured = stopwatch.read();
    assert_eq!(stopwatch.read(), measured);
    stopwatch.stop();
    assert_eq!(stopwatch.read(), measured);
    assert_eq!(stopwatch.display(), display_duration(measured));
    stopwatch.start();
    assert!(stopwatch.is_running());
}

#[test]
fn stopwatch_measures_time() {
    let mut stopwatch = Stopwatch::new();
    stopwatch.start();
    let begun = std::time::Instant::now();
    while begun.elapsed().as_nanos() < 1_000_000 {}
    let running = stopwatch.read();
    assert!(running >= 1_000_000);
    stopwatch.stop();
    assert!(stopwatch.read() >= running);
}

#[test]
fn error_message_names_the_cursor() {
    assert_eq!(Error::CursorOutOfBounds(5).message(), "Could not query action at cursor 5");
    assert_eq!(Error::CursorOutOfBounds(0).message(), "Could not query action at cursor 0");
    assert_eq!(Error::CursorOutOfBounds(1204).message(), "Could not query action at cursor 1204");
}
