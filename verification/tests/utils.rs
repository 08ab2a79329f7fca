use meshterial::utils::{measure, DurationMeasurement};
use std::time::{Duration, Instant};

/// Keeps the processor busy for at least `span`.
fn spin(span: Duration) {
    let start = Instant::now();
    while start.elapsed() < span {
        std::hint::spin_loop();
    }
}

#[test]
fn measure_returns_what_the_function_returned() {
    let (value, _) = measure(|| 6 * 7);
    assert_eq!(value, 42);
    let (text, _) = measure(|| String::from("done"));
    assert_eq!(text, "done");
}

#[test]
fn measure_runs_the_function_once() {
    let mut runs = 0;
    let ((), _) = measure(|| runs += 1);
    assert_eq!(runs, 1);
}

#[test]
fn measure_times_at_least_what_the_function_took() {
    let (_, elapsed) = measure(|| spin(Duration::from_millis(20)));
    assert!(elapsed >= Duration::from_millis(20));
    assert!(elapsed < Duration::from_secs(10));
}

#[test]
fn duration_since_start_does_not_run_backwards() {
    let m = DurationMeasurement::starting_now();
    let first = m.duration_since_start();
    spin(Duration::from_millis(5));
    let second = m.duration_since_start();
    assert!(second >= first);
    assert!(second >= Duration::from_millis(5));
    assert!(second < Duration::from_secs(10));
}

#[test]
fn duration_until_is_the_time_from_the_start() {
    let start = Instant::now();
    let later = start + Duration::from_millis(5);
    let m = DurationMeasurement::starting_at(start);
    assert_eq!(m.duration_until(&later), Duration::from_millis(5));
    assert_eq!(m.duration_until(&(later + Duration::from_secs(2))), Duration::from_millis(2005));
}

#[test]
fn duration_until_the_start_is_no_time() {
    let start = Instant::now();
    let m = DurationMeasurement::starting_at(start);
    assert_eq!(m.duration_until(&start), Duration::new(0, 0));
}

#[test]
fn duration_until_an_earlier_instant_is_no_time() {
    let earlier = Instant::now();
    let start = earlier + Duration::from_millis(5);
    let m = DurationMeasurement::starting_at(start);
    assert_eq!(m.duration_until(&earlier), Duration::new(0, 0));
}

#[test]
fn duration_since_start_counts_from_the_given_start() {
    let start = Instant::now();
    let m = DurationMeasurement::starting_at(start);
    spin(Duration::from_millis(5));
    let elapsed = m.duration_since_start();
    assert!(elapsed >= Duration::from_millis(5));
    assert!(elapsed <= start.elapsed());
}
