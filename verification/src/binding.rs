use vstd::prelude::*;
use vstd::string::StringExecFns;
use crate::pod::PodId;

verus! {

/// The binding command sent to the cluster API: assign one pod to one node.
/// The application turns this into the API's own binding object; the target
/// kind is always the node resource kind.
#[derive(Debug)]
pub struct BindingCommand {
    pub pod: PodId,
    pub target_kind: String,
    pub node: String,
}

/// Builds the binding command for a pod and the node chosen for it.
pub fn create_binding(pod: &PodId, node_name: &String) -> (b: BindingCommand)
    ensures
        b.pod@ == pod@,
        b.target_kind@ == "Node"@,
        b.node@ == node_name@,
{
    BindingCommand {
        pod: pod.clone(),
        target_kind: String::from_str("Node"),
        node: node_name.clone(),
    }
}

/// How one binding transaction failed, as the application reports it back:
/// either the API answered with an HTTP status code, or the transport failed.
#[derive(Clone, Copy, Debug, PartialEq, Eq, Structural)]
pub enum BindError {
    /// The API server answered the binding request with this status code.
    Api { code: u16 },
    /// The request timed out before an answer arrived.
    Timeout,
    /// The connection dropped before an answer arrived.
    ConnectionReset,
}

/// Terminal classification of one assignment attempt.
#[derive(Clone, Copy, Debug, PartialEq, Eq, Structural)]
pub enum OutcomeStatus {
    /// This attempt bound the pod.
    Bound,
    /// The pod already had a binding, or was gone; an expected no-op.
    AlreadyBound,
    /// No node currently matches the selector; the attempt is deferred.
    NoCandidates,
    /// A transient failure; the attempt may be retried.
    Retryable,
    /// A permanent failure; the attempt is dropped.
    Permanent,
}

/// Result record of one assignment attempt, consumed by observability only.
#[derive(Debug)]
pub struct AssignmentOutcome {
    pub pod: PodId,
    pub node: Option<String>,
    pub status: OutcomeStatus,
}

/// Classification of a binding result: success binds; a conflict (the pod is
/// already bound) or a vanished pod is the benign terminal `AlreadyBound`;
/// server errors and transport failures are retryable; every other client
/// error is permanent.
pub open spec fn spec_classify(r: Result<(), BindError>) -> OutcomeStatus {
    match r {
        Ok(()) => OutcomeStatus::Bound,
        Err(BindError::Api { code }) => {
            if code == 409 || code == 404 {
                OutcomeStatus::AlreadyBound
            } else if 500 <= code {
                OutcomeStatus::Retryable
            } else {
                OutcomeStatus::Permanent
            }
        },
        Err(BindError::Timeout) => OutcomeStatus::Retryable,
        Err(BindError::ConnectionReset) => OutcomeStatus::Retryable,
    }
}

pub fn classify_bind_result(r: &Result<(), BindError>) -> (s: OutcomeStatus)
    ensures
        s == spec_classify(*r),
{
    match r {
        Ok(()) => OutcomeStatus::Bound,
        Err(BindError::Api { code }) => {
            if *code == 409 || *code == 404 {
                OutcomeStatus::AlreadyBound
            } else if 500 <= *code {
                OutcomeStatus::Retryable
            } else {
                OutcomeStatus::Permanent
            }
        },
        Err(BindError::Timeout) => OutcomeStatus::Retryable,
        Err(BindError::ConnectionReset) => OutcomeStatus::Retryable,
    }
}

/// The outcome record for an attempt whose binding transaction ran: the
/// status is the classification of the binding result.
pub fn bind_outcome(pod: PodId, node: String, r: &Result<(), BindError>) -> (o: AssignmentOutcome)
    ensures
        o.pod@ == pod@,
        o.node matches Some(n) && n@ == node@,
        o.status == spec_classify(*r),
{
    let status = classify_bind_result(r);
    AssignmentOutcome { pod, node: Some(node), status }
}

/// The outcome record for an attempt that found no candidate node.
pub fn no_candidates_outcome(pod: PodId) -> (o: AssignmentOutcome)
    ensures
        o.pod@ == pod@,
        o.node is None,
        o.status == OutcomeStatus::NoCandidates,
{
    AssignmentOutcome { pod, node: None, status: OutcomeStatus::NoCandidates }
}

} // verus!
