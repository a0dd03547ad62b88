use my_scheduler_rs::binding::{
    BindError, OutcomeStatus, bind_outcome, classify_bind_result, create_binding,
    no_candidates_outcome,
};
use my_scheduler_rs::pod::PodId;

fn pod() -> PodId {
    PodId::new("default".to_string(), "p1".to_string())
}

#[test]
fn create_binding_carries_pod_node_and_target_kind() {
    let b = create_binding(&pod(), &"node-7".to_string());
    assert_eq!(b.pod.namespace, "default");
    assert_eq!(b.pod.name, "p1");
    assert_eq!(b.target_kind, "Node");
    assert_eq!(b.node, "node-7");
}

#[test]
fn success_classifies_as_bound() {
    assert_eq!(classify_bind_result(&Ok(())), OutcomeStatus::Bound);
}

#[test]
fn conflict_classifies_as_already_bound() {
    let r = Err(BindError::Api { code: 409 });
    assert_eq!(classify_bind_result(&r), OutcomeStatus::AlreadyBound);
}

#[test]
fn not_found_classifies_as_already_bound() {
    let r = Err(BindError::Api { code: 404 });
    assert_eq!(classify_bind_result(&r), OutcomeStatus::AlreadyBound);
}

#[test]
fn server_errors_classify_as_retryable() {
    for code in [500u16, 502, 503, 504] {
        let r = Err(BindError::Api { code });
        assert_eq!(classify_bind_result(&r), OutcomeStatus::Retryable);
    }
}

#[test]
fn transport_failures_classify_as_retryable() {
    assert_eq!(classify_bind_result(&Err(BindError::Timeout)), OutcomeStatus::Retryable);
    assert_eq!(classify_bind_result(&Err(BindError::ConnectionReset)), OutcomeStatus::Retryable);
}

#[test]
fn other_client_errors_classify_as_permanent() {
    for code in [400u16, 401, 403, 422] {
        let r = Err(BindError::Api { code });
        assert_eq!(classify_bind_result(&r), OutcomeStatus::Permanent);
    }
}

#[test]
fn bind_outcome_records_pod_node_and_classification() {
    let o = bind_outcome(pod(), "n1".to_string(), &Ok(()));
    assert_eq!(o.pod.namespace, "default");
    assert_eq!(o.pod.name, "p1");
    assert_eq!(o.node, Some("n1".to_string()));
    assert_eq!(o.status, OutcomeStatus::Bound);
}

#[test]
fn no_candidates_outcome_has_no_node() {
    let o = no_candidates_outcome(pod());
    assert_eq!(o.pod.name, "p1");
    assert_eq!(o.node, None);
    assert_eq!(o.status, OutcomeStatus::NoCandidates);
}
