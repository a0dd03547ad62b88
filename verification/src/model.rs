use vstd::prelude::*;
use crate::binding::OutcomeStatus;

verus! {

/// Identity of a pod in the model: (namespace, name).
pub type PodKey = (Seq<char>, Seq<char>);

/// The cluster store's answer to one binding command: binding an unbound pod
/// succeeds; the store's optimistic concurrency answers a command for an
/// already-bound pod with a conflict, which the executor classifies as the
/// benign `AlreadyBound`.
pub open spec fn bind_status(cluster: Map<PodKey, Seq<char>>, pod: PodKey) -> OutcomeStatus {
    if cluster.dom().contains(pod) {
        OutcomeStatus::AlreadyBound
    } else {
        OutcomeStatus::Bound
    }
}

/// The store after one binding command for `pod` to `node`.
pub open spec fn apply_bind(cluster: Map<PodKey, Seq<char>>, pod: PodKey, node: Seq<char>) -> Map<
    PodKey,
    Seq<char>,
> {
    if cluster.dom().contains(pod) {
        cluster
    } else {
        cluster.insert(pod, node)
    }
}

/// The store after a sequence of binding commands, each a (pod, node) pair,
/// applied in the order the store serializes them.
pub open spec fn run_binds(cluster: Map<PodKey, Seq<char>>, attempts: Seq<(PodKey, Seq<char>)>)
    -> Map<PodKey, Seq<char>>
    decreases attempts.len(),
{
    if attempts.len() == 0 {
        cluster
    } else {
        apply_bind(run_binds(cluster, attempts.drop_last()), attempts.last().0, attempts.last().1)
    }
}

/// The store as it stands when attempt `i` of the sequence runs.
pub open spec fn cluster_before(
    cluster: Map<PodKey, Seq<char>>,
    attempts: Seq<(PodKey, Seq<char>)>,
    i: int,
) -> Map<PodKey, Seq<char>> {
    run_binds(cluster, attempts.take(i))
}

/// The store's answer to attempt `i` of the sequence.
pub open spec fn status_of(
    cluster: Map<PodKey, Seq<char>>,
    attempts: Seq<(PodKey, Seq<char>)>,
    i: int,
) -> OutcomeStatus {
    bind_status(cluster_before(cluster, attempts, i), attempts[i].0)
}

/// A pod bound at step `i` is still bound at every later step: binding
/// commands never unbind.
proof fn lemma_bound_stays(
    cluster: Map<PodKey, Seq<char>>,
    attempts: Seq<(PodKey, Seq<char>)>,
    p: PodKey,
    i: int,
    j: int,
)
    requires
        0 <= i <= j <= attempts.len(),
        cluster_before(cluster, attempts, i).dom().contains(p),
    ensures
        cluster_before(cluster, attempts, j).dom().contains(p),
    decreases j - i,
{
    if i < j {
        lemma_bound_stays(cluster, attempts, p, i, j - 1);
        assert(attempts.take(j).drop_last() =~= attempts.take(j - 1));
        assert(attempts.take(j).last() == attempts[j - 1]);
    }
}

/// Law: a pod that the store already holds a binding for — however that
/// binding came about, including before a watch interruption — is never
/// bound a second time: every later binding attempt for it, such as one
/// re-dispatched after reconnecting the watch, is answered `AlreadyBound`.
pub proof fn lemma_rebind_is_already_bound(
    cluster: Map<PodKey, Seq<char>>,
    attempts: Seq<(PodKey, Seq<char>)>,
    i: int,
)
    requires
        0 <= i < attempts.len(),
        cluster.dom().contains(attempts[i].0),
    ensures
        status_of(cluster, attempts, i) == OutcomeStatus::AlreadyBound,
{
    assert(attempts.take(0).len() == 0);
    lemma_bound_stays(cluster, attempts, attempts[i].0, 0, i);
}

/// How many of the first `upto` attempts are for pod `p` and are answered
/// `Bound`.
pub open spec fn bound_count(
    cluster: Map<PodKey, Seq<char>>,
    attempts: Seq<(PodKey, Seq<char>)>,
    p: PodKey,
    upto: int,
) -> int
    decreases upto,
{
    if upto <= 0 {
        0
    } else {
        bound_count(cluster, attempts, p, upto - 1) + if attempts[upto - 1].0 == p && status_of(
            cluster,
            attempts,
            upto - 1,
        ) == OutcomeStatus::Bound {
            1int
        } else {
            0int
        }
    }
}

/// After `upto` attempts, the pod is bound exactly when it was bound at the
/// start or one of those attempts bound it — and it is bound at most once.
proof fn lemma_bound_count_invariant(
    cluster: Map<PodKey, Seq<char>>,
    attempts: Seq<(PodKey, Seq<char>)>,
    p: PodKey,
    upto: int,
)
    requires
        0 <= upto <= attempts.len(),
    ensures
        0 <= bound_count(cluster, attempts, p, upto) <= 1,
        cluster_before(cluster, attempts, upto).dom().contains(p) <==> (cluster.dom().contains(p)
            || bound_count(cluster, attempts, p, upto) >= 1),
    decreases upto,
{
    if upto == 0 {
        assert(attempts.take(0).len() == 0);
    } else {
        lemma_bound_count_invariant(cluster, attempts, p, upto - 1);
        assert(attempts.take(upto).drop_last() =~= attempts.take(upto - 1));
        assert(attempts.take(upto).last() == attempts[upto - 1]);
        let prev = cluster_before(cluster, attempts, upto - 1);
        let a = attempts[upto - 1];
        assert(cluster_before(cluster, attempts, upto) == apply_bind(prev, a.0, a.1));
        if a.0 == p {
            if prev.dom().contains(p) {
                assert(status_of(cluster, attempts, upto - 1) == OutcomeStatus::AlreadyBound);
                assert(bound_count(cluster, attempts, p, upto) == bound_count(cluster, attempts,
                p, upto - 1));
            } else {
                assert(status_of(cluster, attempts, upto - 1) == OutcomeStatus::Bound);
                assert(apply_bind(prev, a.0, a.1).dom().contains(p));
                assert(bound_count(cluster, attempts, p, upto) == bound_count(cluster, attempts,
                p, upto - 1) + 1);
            }
        } else {
            assert(apply_bind(prev, a.0, a.1).dom().contains(p) == prev.dom().contains(p));
            assert(bound_count(cluster, attempts, p, upto) == bound_count(cluster, attempts, p,
            upto - 1));
        }
    }
}

/// Law: over any order in which the store serializes a sequence of binding
/// attempts, at most one attempt for a given pod is answered `Bound` — and
/// none at all if the pod was bound before the sequence began.
pub proof fn lemma_bound_at_most_once(
    cluster: Map<PodKey, Seq<char>>,
    attempts: Seq<(PodKey, Seq<char>)>,
    p: PodKey,
)
    ensures
        bound_count(cluster, attempts, p, attempts.len() as int) <= 1,
        cluster.dom().contains(p) ==> bound_count(cluster, attempts, p,
        attempts.len() as int) == 0,
{
    lemma_bound_count_invariant(cluster, attempts, p, attempts.len() as int);
    if cluster.dom().contains(p) {
        lemma_count_zero_when_prebound(cluster, attempts, p, attempts.len() as int);
    }
}

/// No attempt for a pod that was bound before the sequence began is answered
/// `Bound`.
proof fn lemma_count_zero_when_prebound(
    cluster: Map<PodKey, Seq<char>>,
    attempts: Seq<(PodKey, Seq<char>)>,
    p: PodKey,
    upto: int,
)
    requires
        0 <= upto <= attempts.len(),
        cluster.dom().contains(p),
    ensures
        bound_count(cluster, attempts, p, upto) == 0,
    decreases upto,
{
    if upto > 0 {
        lemma_count_zero_when_prebound(cluster, attempts, p, upto - 1);
        if attempts[upto - 1].0 == p {
            lemma_rebind_is_already_bound(cluster, attempts, upto - 1);
        }
    }
}

/// Law: at most one of the binding attempts for a given pod is answered
/// `Bound`; whatever order concurrent attempts are serialized in, every
/// attempt after the successful one is answered `AlreadyBound`, never a
/// second `Bound`.
pub proof fn lemma_at_most_one_bound(
    cluster: Map<PodKey, Seq<char>>,
    attempts: Seq<(PodKey, Seq<char>)>,
    i: int,
    j: int,
)
    requires
        0 <= i < j < attempts.len(),
        attempts[i].0 == attempts[j].0,
        status_of(cluster, attempts, i) == OutcomeStatus::Bound,
    ensures
        status_of(cluster, attempts, j) == OutcomeStatus::AlreadyBound,
{
    let p = attempts[i].0;
    assert(attempts.take(i + 1).drop_last() =~= attempts.take(i));
    assert(attempts.take(i + 1).last() == attempts[i]);
    assert(cluster_before(cluster, attempts, i + 1).dom().contains(p));
    lemma_bound_stays(cluster, attempts, p, i + 1, j);
}

} // verus!
