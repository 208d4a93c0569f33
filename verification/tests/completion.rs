use adaptive_concurrency::completion::TrackedCompletion;
use adaptive_concurrency::controller::{Controller, Settings};
use adaptive_concurrency::outcome::Outcome;
use adaptive_concurrency::pool::{Acquired, Permit};

fn controller_with_limit(initial_milli: u64) -> Controller {
    Controller::new(Settings {
        initial_limit_milli: initial_milli,
        min_limit_milli: 1000,
        max_limit_milli: 20_000,
        decrease_ratio_milli: 900,
        increase_step_milli: 1000,
        baseline_relaxation_nanos: 100,
    })
}

fn obtain_permit(controller: &mut Controller) -> Permit {
    match controller.try_acquire() {
        Acquired::Granted(p) => p,
        Acquired::Exhausted => panic!("controller unexpectedly exhausted"),
        Acquired::ShutDown => panic!("controller unexpectedly shut down"),
    }
}

#[test]
fn abandonment_releases_permit_without_feedback() {
    // An abandoned completion returns its permit — in_flight drops by one —
    // but reports nothing, so the limit stays where it was.
    let mut controller = controller_with_limit(5_000);
    let permit = obtain_permit(&mut controller);
    assert_eq!(controller.in_flight(), 1);
    let mut completion = TrackedCompletion::new(permit);
    completion.abandon(&mut controller);
    assert_eq!(controller.in_flight(), 0);
    assert_eq!(controller.current_limit_milli(), 5_000);
    assert_eq!(controller.rtt_baseline_nanos(), None);
    assert!(!completion.holds_permit());
    assert!(!completion.has_reported());
}

#[test]
fn completion_reports_once_and_releases_once() {
    let mut controller = controller_with_limit(5_000);
    let permit = obtain_permit(&mut controller);
    let mut completion = TrackedCompletion::new(permit);
    completion.complete(&mut controller, 1_000, Outcome::Success);
    assert_eq!(controller.in_flight(), 0);
    assert_eq!(controller.rtt_baseline_nanos(), Some(1_000));
    assert!(completion.has_reported());
    // A later abandonment (a race the completion already won) is inert.
    completion.abandon(&mut controller);
    assert_eq!(controller.in_flight(), 0);
    assert_eq!(controller.rtt_baseline_nanos(), Some(1_000));
}

#[test]
fn completion_after_abandonment_is_inert() {
    let mut controller = controller_with_limit(5_000);
    let permit = obtain_permit(&mut controller);
    let mut completion = TrackedCompletion::new(permit);
    completion.abandon(&mut controller);
    // The natural completion lost the race: no feedback, no second release.
    completion.complete(&mut controller, 1_000, Outcome::BackpressureSignal);
    assert_eq!(controller.in_flight(), 0);
    assert_eq!(controller.current_limit_milli(), 5_000);
    assert!(!completion.has_reported());
    completion.abandon(&mut controller);
    assert_eq!(controller.in_flight(), 0);
}

#[test]
fn backpressure_completion_cuts_limit() {
    let mut controller = controller_with_limit(10_000);
    let permit = obtain_permit(&mut controller);
    let mut completion = TrackedCompletion::new(permit);
    completion.complete(&mut controller, 1_000, Outcome::BackpressureSignal);
    assert_eq!(controller.current_limit_milli(), 9_000);
    assert_eq!(controller.in_flight(), 0);
}

#[test]
fn saturating_permit_gates_the_increase() {
    // capacity 1: the admitted request saturates the pool, so a low-latency
    // success raises the limit.
    let mut controller = controller_with_limit(1_000);
    let permit = obtain_permit(&mut controller);
    assert!(permit.pool_was_full());
    let mut completion = TrackedCompletion::new(permit);
    completion.complete(&mut controller, 1_000, Outcome::Success);
    assert_eq!(controller.current_limit_milli(), 2_000);
    assert_eq!(controller.capacity(), 2);
}

#[test]
fn unsaturated_permit_does_not_gate_the_increase() {
    let mut controller = controller_with_limit(2_000);
    let permit = obtain_permit(&mut controller);
    assert!(!permit.pool_was_full());
    let mut completion = TrackedCompletion::new(permit);
    completion.complete(&mut controller, 1_000, Outcome::Success);
    assert_eq!(controller.current_limit_milli(), 2_000);
}
