//! End-to-end assignment scenarios, driven the way the application drives the
//! core: watch event in, candidates queried, node selected, binding result
//! classified, disposition decided.

use my_scheduler_rs::binding::{AssignmentOutcome, BindError, OutcomeStatus, bind_outcome};
use my_scheduler_rs::config::SchedulerConfig;
use my_scheduler_rs::orchestrator::{
    AttemptDisposition, InFlightRegistry, RetryLimits, next_step, plan_attempt,
};
use my_scheduler_rs::pod::{PodId, PodSnapshot};
use my_scheduler_rs::selection::UniformRandomPolicy;
use my_scheduler_rs::watch::{PodWatchEvent, WatchController};

fn config() -> SchedulerConfig {
    SchedulerConfig::new("X".to_string(), "Pending".to_string())
}

fn limits() -> RetryLimits {
    RetryLimits {
        max_attempts: 3,
        backoff_base_ms: 100,
        backoff_cap_ms: 1000,
        defer_delay_ms: 3000,
    }
}

fn pending_pod(ns: &str, name: &str) -> PodSnapshot {
    PodSnapshot {
        id: PodId::new(ns.to_string(), name.to_string()),
        phase: "Pending".to_string(),
        scheduler_name: "X".to_string(),
        assigned_node: None,
    }
}

/// One attempt for a dispatched pod: query candidates, plan, run the binding
/// (simulated by `bind_result`), and classify.
fn run_attempt(
    pod: &PodId,
    candidates: &[&str],
    bind_result: Result<(), BindError>,
) -> AssignmentOutcome {
    let mut policy = UniformRandomPolicy {};
    let set: Vec<String> = candidates.iter().map(|n| n.to_string()).collect();
    match plan_attempt(&mut policy, pod, &set) {
        Ok(cmd) => bind_outcome(cmd.pod, cmd.node, &bind_result),
        Err(outcome) => outcome,
    }
}

#[test]
fn pending_pod_with_one_candidate_is_bound_exactly_once() {
    // Watch emits p1 pending with scheduler name X; the candidate provider
    // returns {n1}; the binding succeeds.
    let mut controller = WatchController::new();
    controller.on_connected();
    let mut registry = InFlightRegistry::new();
    let mut outcomes: Vec<AssignmentOutcome> = Vec::new();

    let ev = PodWatchEvent::Added { pod: pending_pod("default", "p1"), resource_version: "9".to_string() };
    let dispatched = controller.on_event(ev, &config()).expect("p1 must be dispatched");
    assert!(registry.try_begin(&dispatched));

    let outcome = run_attempt(&dispatched, &["n1"], Ok(()));
    assert_eq!(next_step(outcome.status, 1, &limits()), AttemptDisposition::Finished);
    registry.finish(&dispatched);
    outcomes.push(outcome);

    assert_eq!(outcomes.len(), 1);
    assert_eq!(outcomes[0].pod.namespace, "default");
    assert_eq!(outcomes[0].pod.name, "p1");
    assert_eq!(outcomes[0].node, Some("n1".to_string()));
    assert_eq!(outcomes[0].status, OutcomeStatus::Bound);
}

#[test]
fn no_candidates_defers_then_binds_when_a_node_appears() {
    // The candidate provider first returns {}; the orchestrator defers; the
    // provider later returns {n2} and the binding succeeds.
    let pod = PodId::new("default".to_string(), "p1".to_string());
    let mut outcomes: Vec<AssignmentOutcome> = Vec::new();

    let first = run_attempt(&pod, &[], Ok(()));
    assert_eq!(first.status, OutcomeStatus::NoCandidates);
    assert_eq!(first.node, None);
    assert_eq!(
        next_step(first.status, 1, &limits()),
        AttemptDisposition::DeferOnTimer { delay_ms: 3000 }
    );
    outcomes.push(first);

    let second = run_attempt(&pod, &["n2"], Ok(()));
    assert_eq!(next_step(second.status, 2, &limits()), AttemptDisposition::Finished);
    outcomes.push(second);

    assert_eq!(outcomes[0].status, OutcomeStatus::NoCandidates);
    assert_eq!(outcomes[1].status, OutcomeStatus::Bound);
    assert_eq!(outcomes[1].node, Some("n2".to_string()));
}

#[test]
fn binding_conflict_resolves_to_already_bound_without_retry() {
    // The binding call answers a conflict: a concurrent process already bound
    // the pod. The outcome is AlreadyBound and no retry is attempted.
    let pod = PodId::new("default".to_string(), "p1".to_string());
    let outcome = run_attempt(&pod, &["n1"], Err(BindError::Api { code: 409 }));
    assert_eq!(outcome.status, OutcomeStatus::AlreadyBound);
    assert_eq!(next_step(outcome.status, 1, &limits()), AttemptDisposition::Finished);
}

#[test]
fn config_default_and_new_carry_the_given_values() {
    let d = SchedulerConfig::default();
    assert_eq!(d.scheduler_name, "my-scheduler-rs");
    assert_eq!(d.phase_pending, "Pending");
    let c = SchedulerConfig::new("s".to_string(), "Pending".to_string());
    assert_eq!(c.scheduler_name, "s");
    assert_eq!(c.phase_pending, "Pending");
}
