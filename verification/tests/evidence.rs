use std::sync::atomic::AtomicU64;
use std::time::{Duration, Instant};

use aqua_verdict::benchmark::{record, run};
use aqua_verdict::evidence::CounterObservation;
use aqua_verdict::observer::{begin, count_one, end, sample};

fn wait(ms: u64) {
    let start = Instant::now();
    while start.elapsed() < Duration::from_millis(ms) {
        std::hint::spin_loop();
    }
}

#[test]
fn both_operations_run_in_order() {
    let log = std::cell::RefCell::new(Vec::new());
    let r = run(
        || {
            log.borrow_mut().push('a');
            true
        },
        || {
            log.borrow_mut().push('b');
            true
        },
    );
    assert!(r.a_completed);
    assert!(r.b_completed);
    assert_eq!(*log.borrow(), vec!['a', 'b']);
}

#[test]
fn slow_operation_takes_measurable_time() {
    let r = run(
        || {
            wait(30);
            true
        },
        || true,
    );
    assert!(r.timing.duration_a_ms >= 30);
    assert!(r.timing.duration_b_ms < 30);
}

#[test]
fn failed_operation_is_recorded_as_zero() {
    let r = run(
        || {
            wait(20);
            false
        },
        || {
            wait(20);
            true
        },
    );
    assert!(!r.a_completed);
    assert_eq!(r.timing.duration_a_ms, 0);
    assert!(r.b_completed);
    assert!(r.timing.duration_b_ms >= 20);
}

#[test]
fn second_operation_runs_after_a_failure() {
    let ran = std::cell::Cell::new(false);
    let r = run(|| false, || {
        ran.set(true);
        false
    });
    assert!(ran.get());
    assert!(!r.b_completed);
    assert_eq!(r.timing.duration_b_ms, 0);
}

#[test]
fn recorded_time_saturates() {
    assert_eq!(record(true, 0), 0);
    assert_eq!(record(true, 104), 104);
    assert_eq!(record(false, 104), 0);
    assert_eq!(record(true, u64::MAX as u128), u64::MAX);
    assert_eq!(record(true, u64::MAX as u128 + 1), u64::MAX);
    assert_eq!(record(true, u128::MAX), u64::MAX);
}

#[test]
fn counter_is_sampled() {
    let counter = AtomicU64::new(7);
    assert_eq!(sample(&counter), 7);
    count_one(&counter);
    assert_eq!(sample(&counter), 8);
}

#[test]
fn observation_spans_two_samples() {
    let counter = AtomicU64::new(3);
    let opened = begin(&counter);
    assert_eq!(opened, CounterObservation { before: 3, after: 3 });
    assert_eq!(opened.grown(), 0);
    count_one(&counter);
    count_one(&counter);
    let closed = end(opened, &counter);
    assert_eq!(closed, CounterObservation { before: 3, after: 5 });
    assert_eq!(closed.grown(), 2);
}

#[test]
fn sample_below_the_first_is_no_growth() {
    let counter = AtomicU64::new(9);
    let opened = begin(&counter);
    let lower = AtomicU64::new(2);
    let closed = end(opened, &lower);
    assert_eq!(closed, CounterObservation { before: 9, after: 9 });
    assert_eq!(CounterObservation { before: 9, after: 2 }.grown(), 0);
}

#[test]
fn observation_opens_at_the_sampled_value() {
    assert_eq!(CounterObservation::opened_at(0), CounterObservation { before: 0, after: 0 });
    assert_eq!(CounterObservation::opened_at(41), CounterObservation { before: 41, after: 41 });
    assert_eq!(CounterObservation::opened_at(41).grown(), 0);
    assert_eq!(
        CounterObservation::opened_at(u64::MAX),
        CounterObservation { before: u64::MAX, after: u64::MAX }
    );
}

#[test]
fn observation_closes_at_the_sampled_value() {
    let opened = CounterObservation::opened_at(10);
    assert_eq!(opened.closed_at(10), CounterObservation { before: 10, after: 10 });
    assert_eq!(opened.closed_at(17), CounterObservation { before: 10, after: 17 });
    assert_eq!(opened.closed_at(17).grown(), 7);
    assert_eq!(opened.closed_at(3), CounterObservation { before: 10, after: 10 });
    assert_eq!(opened.closed_at(3).grown(), 0);
    assert_eq!(opened.closed_at(u64::MAX).grown(), u64::MAX - 10);
}

#[test]
fn observation_begins_at_what_the_counter_holds() {
    for start in [0u64, 1, 5, 1 << 40] {
        let counter = AtomicU64::new(start);
        assert_eq!(sample(&counter), start);
        assert_eq!(begin(&counter), CounterObservation { before: start, after: start });
    }
}
