use my_scheduler_rs::binding::OutcomeStatus;
use my_scheduler_rs::orchestrator::{
    AttemptDisposition, ConcurrencyGate, InFlightRegistry, RetryLimits, backoff_delay, next_step,
};
use my_scheduler_rs::pod::PodId;

fn pod(ns: &str, name: &str) -> PodId {
    PodId::new(ns.to_string(), name.to_string())
}

fn limits() -> RetryLimits {
    RetryLimits {
        max_attempts: 5,
        backoff_base_ms: 100,
        backoff_cap_ms: 1000,
        defer_delay_ms: 3000,
    }
}

#[test]
fn second_dispatch_of_an_in_flight_pod_is_coalesced() {
    let mut reg = InFlightRegistry::new();
    assert!(reg.try_begin(&pod("default", "p1")));
    assert!(!reg.try_begin(&pod("default", "p1")));
    assert!(reg.try_begin(&pod("default", "p2")));
    assert!(!reg.try_begin(&pod("default", "p2")));
}

#[test]
fn finishing_an_attempt_allows_a_fresh_one() {
    let mut reg = InFlightRegistry::new();
    assert!(reg.try_begin(&pod("default", "p1")));
    reg.finish(&pod("default", "p1"));
    assert!(reg.try_begin(&pod("default", "p1")));
}

#[test]
fn finish_clears_only_the_named_pod() {
    let mut reg = InFlightRegistry::new();
    assert!(reg.try_begin(&pod("default", "p1")));
    assert!(reg.try_begin(&pod("default", "p2")));
    reg.finish(&pod("default", "p1"));
    assert!(!reg.try_begin(&pod("default", "p2")));
    assert!(reg.try_begin(&pod("default", "p1")));
}

#[test]
fn pods_with_equal_names_in_different_namespaces_are_distinct() {
    let mut reg = InFlightRegistry::new();
    assert!(reg.try_begin(&pod("default", "p1")));
    assert!(reg.try_begin(&pod("kube-system", "p1")));
}

#[test]
fn gate_admits_up_to_the_bound() {
    let mut gate = ConcurrencyGate::new(2);
    assert!(gate.try_acquire());
    assert!(gate.try_acquire());
    assert!(!gate.try_acquire());
    gate.release();
    assert!(gate.try_acquire());
}

#[test]
fn gate_with_zero_bound_admits_nothing() {
    let mut gate = ConcurrencyGate::new(0);
    assert!(!gate.try_acquire());
}

#[test]
fn backoff_doubles_from_the_base_up_to_the_cap() {
    assert_eq!(backoff_delay(100, 1000, 0), 100);
    assert_eq!(backoff_delay(100, 1000, 1), 200);
    assert_eq!(backoff_delay(100, 1000, 2), 400);
    assert_eq!(backoff_delay(100, 1000, 3), 800);
    assert_eq!(backoff_delay(100, 1000, 4), 1000);
    assert_eq!(backoff_delay(100, 1000, 60), 1000);
}

#[test]
fn backoff_with_base_above_cap_starts_at_the_cap() {
    assert_eq!(backoff_delay(5000, 1000, 0), 1000);
    assert_eq!(backoff_delay(5000, 1000, 3), 1000);
}

#[test]
fn terminal_statuses_finish_the_attempt() {
    let l = limits();
    assert_eq!(next_step(OutcomeStatus::Bound, 0, &l), AttemptDisposition::Finished);
    assert_eq!(next_step(OutcomeStatus::AlreadyBound, 0, &l), AttemptDisposition::Finished);
    assert_eq!(next_step(OutcomeStatus::Permanent, 0, &l), AttemptDisposition::Finished);
}

#[test]
fn no_candidates_defers_on_the_timer() {
    let l = limits();
    assert_eq!(
        next_step(OutcomeStatus::NoCandidates, 0, &l),
        AttemptDisposition::DeferOnTimer { delay_ms: 3000 }
    );
}

#[test]
fn retryable_backs_off_until_the_budget_is_spent() {
    let l = limits();
    assert_eq!(
        next_step(OutcomeStatus::Retryable, 1, &l),
        AttemptDisposition::RetryAfterBackoff { delay_ms: 200 }
    );
    assert_eq!(
        next_step(OutcomeStatus::Retryable, 4, &l),
        AttemptDisposition::RetryAfterBackoff { delay_ms: 1000 }
    );
    assert_eq!(next_step(OutcomeStatus::Retryable, 5, &l), AttemptDisposition::Abandoned);
    assert_eq!(next_step(OutcomeStatus::Retryable, 9, &l), AttemptDisposition::Abandoned);
}
