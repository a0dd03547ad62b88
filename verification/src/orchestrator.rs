use vstd::prelude::*;
use crate::binding::{
    AssignmentOutcome,
    BindingCommand,
    OutcomeStatus,
    create_binding,
    no_candidates_outcome,
};
use crate::pod::{PodId, contains_id, contains_key, no_duplicate_keys};
use crate::selection::SelectionPolicy;

verus! {

/// The per-pod single-flight marker: the set of pod identities with an
/// assignment attempt currently outstanding. This is the only mutable state
/// the core shares between the watch dispatch path and the completion path.
#[derive(Debug)]
pub struct InFlightRegistry {
    ids: Vec<PodId>,
}

impl View for InFlightRegistry {
    type V = Seq<PodId>;

    closed spec fn view(&self) -> Seq<PodId> {
        self.ids@
    }
}

impl InFlightRegistry {
    pub closed spec fn wf(&self) -> bool {
        no_duplicate_keys(self.ids@)
    }

    pub fn new() -> (r: InFlightRegistry)
        ensures
            r.wf(),
            r@.len() == 0,
    {
        InFlightRegistry { ids: Vec::new() }
    }

    /// Start an attempt for `pod` unless one is already outstanding: a second
    /// appearance of a pod whose attempt is in flight is coalesced, not
    /// double-dispatched.
    pub fn try_begin(&mut self, pod: &PodId) -> (started: bool)
        requires
            old(self).wf(),
        ensures
            final(self).wf(),
            started == !contains_key(old(self)@, pod@),
            forall|key: (Seq<char>, Seq<char>)|
                contains_key(final(self)@, key) <==> (contains_key(old(self)@, key) || (started
                    && key == pod@)),
    {
        if contains_id(&self.ids, pod) {
            false
        } else {
            self.ids.push(pod.clone());
            proof {
                assert forall|key: (Seq<char>, Seq<char>)|
                    contains_key(self.ids@, key) <==> (contains_key(old(self)@, key) || key
                        == pod@) by {
                    if contains_key(self.ids@, key) {
                        let i = choose|i: int|
                            0 <= i < self.ids@.len() && #[trigger] self.ids@[i]@ == key;
                        if i < old(self)@.len() {
                            assert(old(self)@[i]@ == key);
                        }
                    }
                    if contains_key(old(self)@, key) {
                        let i = choose|i: int|
                            0 <= i < old(self)@.len() && #[trigger] old(self)@[i]@ == key;
                        assert(self.ids@[i]@ == key);
                    }
                    if key == pod@ {
                        assert(self.ids@[self.ids@.len() - 1]@ == key);
                    }
                }
            }
            true
        }
    }

    /// The attempt for `pod` completed (or was abandoned): clear its marker,
    /// so a later appearance of the same pod may start a fresh attempt.
    pub fn finish(&mut self, pod: &PodId)
        requires
            old(self).wf(),
        ensures
            final(self).wf(),
            forall|key: (Seq<char>, Seq<char>)|
                contains_key(final(self)@, key) <==> (contains_key(old(self)@, key) && key
                    != pod@),
    {
        let mut k: usize = 0;
        while k < self.ids.len()
            invariant
                k <= self.ids@.len(),
                self.ids@ == old(self)@,
                old(self).wf(),
                forall|i: int| 0 <= i < k ==> self.ids@[i]@ != pod@,
            decreases self.ids@.len() - k,
        {
            if self.ids[k].key_eq(pod) {
                self.ids.remove(k);
                proof {
                    let ghost prev = old(self)@;
                    assert forall|key: (Seq<char>, Seq<char>)|
                        contains_key(self.ids@, key) <==> (contains_key(prev, key) && key != pod@)
                        by {
                        if contains_key(self.ids@, key) {
                            let i = choose|i: int|
                                0 <= i < self.ids@.len() && #[trigger] self.ids@[i]@ == key;
                            if i < k {
                                assert(prev[i]@ == key);
                                assert(prev[i]@ != pod@);
                            } else {
                                assert(self.ids@[i] == prev[i + 1]);
                                assert(prev[i + 1]@ == key);
                                assert(prev[i + 1]@ != pod@);
                            }
                        }
                        if contains_key(prev, key) && key != pod@ {
                            let i = choose|i: int|
                                0 <= i < prev.len() && #[trigger] prev[i]@ == key;
                            if i < k {
                                assert(self.ids@[i]@ == key);
                            } else {
                                assert(i != k);
                                assert(self.ids@[i - 1] == prev[i]);
                                assert(self.ids@[i - 1]@ == key);
                            }
                        }
                    }
                    assert forall|i: int, j: int|
                        0 <= i < j < self.ids@.len() implies self.ids@[i]@ != self.ids@[j]@ by {
                        let pi: int = if i < k {
                            i
                        } else {
                            i + 1
                        };
                        let pj: int = if j < k {
                            j
                        } else {
                            j + 1
                        };
                        assert(self.ids@[i] == prev[pi]);
                        assert(self.ids@[j] == prev[pj]);
                    }
                }
                return ;
            }
            k = k + 1;
        }
        proof {
            assert forall|key: (Seq<char>, Seq<char>)|
                contains_key(self.ids@, key) implies key != pod@ by {
                let i = choose|i: int| 0 <= i < self.ids@.len() && #[trigger] self.ids@[i]@ == key;
            }
        }
    }
}

/// Admission control against the cluster API: at most `bound` assignment
/// attempts run at once.
#[derive(Clone, Copy, Debug)]
pub struct ConcurrencyGate {
    pub active: usize,
    pub bound: usize,
}

impl ConcurrencyGate {
    pub fn new(bound: usize) -> (g: ConcurrencyGate)
        ensures
            g.active == 0,
            g.bound == bound,
    {
        ConcurrencyGate { active: 0, bound }
    }

    /// Admit one more attempt if the bound allows it.
    pub fn try_acquire(&mut self) -> (ok: bool)
        ensures
            final(self).bound == old(self).bound,
            ok == (old(self).active < old(self).bound),
            ok ==> final(self).active == old(self).active + 1,
            !ok ==> final(self).active == old(self).active,
    {
        if self.active < self.bound {
            self.active = self.active + 1;
            true
        } else {
            false
        }
    }

    /// One attempt finished; its slot frees up.
    pub fn release(&mut self)
        requires
            old(self).active > 0,
        ensures
            final(self).bound == old(self).bound,
            final(self).active == old(self).active - 1,
    {
        self.active = self.active - 1;
    }
}

/// Retry and backoff configuration, injected by the surrounding application.
#[derive(Clone, Copy, Debug)]
pub struct RetryLimits {
    /// How many times a retryably-failed attempt may run in all.
    pub max_attempts: u32,
    /// First backoff delay after a retryable failure, in milliseconds.
    pub backoff_base_ms: u64,
    /// Largest backoff delay, in milliseconds.
    pub backoff_cap_ms: u64,
    /// Fixed delay before re-trying a pod that had no candidates.
    pub defer_delay_ms: u64,
}

/// Bounded exponential backoff: the delay before retry `n` doubles with each
/// retry, starting from the base and never exceeding the cap.
pub open spec fn spec_backoff(base: u64, cap: u64, n: nat) -> u64
    decreases n,
{
    if n == 0 {
        if base <= cap {
            base
        } else {
            cap
        }
    } else {
        let prev = spec_backoff(base, cap, (n - 1) as nat);
        if prev <= cap / 2 {
            (prev * 2) as u64
        } else {
            cap
        }
    }
}

pub fn backoff_delay(base: u64, cap: u64, retries_done: u32) -> (d: u64)
    ensures
        d == spec_backoff(base, cap, retries_done as nat),
{
    let mut d: u64 = if base <= cap {
        base
    } else {
        cap
    };
    let mut i: u32 = 0;
    while i < retries_done
        invariant
            i <= retries_done,
            d == spec_backoff(base, cap, i as nat),
        decreases retries_done - i,
    {
        d = if d <= cap / 2 {
            d * 2
        } else {
            cap
        };
        i = i + 1;
    }
    d
}

/// What the orchestrator does with a pod's attempt after one run.
#[derive(Clone, Copy, Debug, PartialEq, Eq, Structural)]
pub enum AttemptDisposition {
    /// The attempt is over: the pod is bound, was already bound, or failed
    /// permanently; no further retries.
    Finished,
    /// A transient failure: run the attempt again after this delay.
    RetryAfterBackoff { delay_ms: u64 },
    /// No candidate node right now: defer and re-try after this fixed delay.
    DeferOnTimer { delay_ms: u64 },
    /// Transient failures exhausted the attempt budget: give the pod up,
    /// logged as abandoned, without crashing.
    Abandoned,
}

/// The orchestrator's reaction to the outcome status of one attempt run:
/// `Bound`, `AlreadyBound` and `Permanent` are terminal; `NoCandidates`
/// defers on the fixed timer; `Retryable` backs off exponentially until the
/// attempt budget is spent, then abandons.
pub fn next_step(status: OutcomeStatus, attempts_made: u32, limits: &RetryLimits) -> (d:
    AttemptDisposition)
    ensures
        (status == OutcomeStatus::Bound || status == OutcomeStatus::AlreadyBound || status
            == OutcomeStatus::Permanent) <==> d == AttemptDisposition::Finished,
        status == OutcomeStatus::NoCandidates <==> d == (AttemptDisposition::DeferOnTimer {
            delay_ms: limits.defer_delay_ms,
        }),
        (status == OutcomeStatus::Retryable && attempts_made < limits.max_attempts) ==> d == (
        AttemptDisposition::RetryAfterBackoff {
            delay_ms: spec_backoff(limits.backoff_base_ms, limits.backoff_cap_ms,
            attempts_made as nat),
        }),
        (status == OutcomeStatus::Retryable && attempts_made >= limits.max_attempts) <==> d
            == AttemptDisposition::Abandoned,
{
    match status {
        OutcomeStatus::Bound => AttemptDisposition::Finished,
        OutcomeStatus::AlreadyBound => AttemptDisposition::Finished,
        OutcomeStatus::Permanent => AttemptDisposition::Finished,
        OutcomeStatus::NoCandidates => AttemptDisposition::DeferOnTimer {
            delay_ms: limits.defer_delay_ms,
        },
        OutcomeStatus::Retryable => {
            if attempts_made < limits.max_attempts {
                AttemptDisposition::RetryAfterBackoff {
                    delay_ms: backoff_delay(limits.backoff_base_ms, limits.backoff_cap_ms,
                    attempts_made),
                }
            } else {
                AttemptDisposition::Abandoned
            }
        },
    }
}

/// One assignment decision for a dispatched pod: let the policy pick a node
/// among the candidates and build the binding command for it, or — when no
/// node is eligible — report the deferred no-candidate outcome instead.
pub fn plan_attempt<P: SelectionPolicy>(policy: &mut P, pod: &PodId, candidates: &Vec<String>)
    -> (r: Result<BindingCommand, AssignmentOutcome>)
    ensures
        r is Ok <==> candidates@.len() > 0,
        r matches Ok(b) ==> {
            &&& b.pod@ == pod@
            &&& b.target_kind@ == "Node"@
            &&& exists|i: int| 0 <= i < candidates@.len() && candidates@[i]@ == b.node@
        },
        r matches Err(o) ==> {
            &&& o.pod@ == pod@
            &&& o.node is None
            &&& o.status == OutcomeStatus::NoCandidates
        },
{
    match policy.select(pod, candidates) {
        Some(node) => Ok(create_binding(pod, &node)),
        None => Err(no_candidates_outcome(pod.clone())),
    }
}

} // verus!
