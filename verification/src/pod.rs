use vstd::prelude::*;
use crate::config::SchedulerConfig;

verus! {

/// Identity of a pod: namespace plus name, globally unique and immutable for
/// the pod's lifetime.
#[derive(Debug)]
pub struct PodId {
    pub namespace: String,
    pub name: String,
}

impl View for PodId {
    type V = (Seq<char>, Seq<char>);

    open spec fn view(&self) -> Self::V {
        (self.namespace@, self.name@)
    }
}

impl PodId {
    pub fn new(namespace: String, name: String) -> (p: PodId)
        ensures
            p@ == (namespace@, name@),
    {
        PodId { namespace, name }
    }

    /// Two pod identities denote the same pod exactly when both components
    /// match.
    pub fn key_eq(&self, other: &PodId) -> (r: bool)
        ensures
            r == (self@ == other@),
    {
        let r = self.namespace == other.namespace && self.name == other.name;
        proof {
            if self.namespace@ == other.namespace@ && self.name@ == other.name@ {
                assert(self@ == other@);
            }
        }
        r
    }
}

impl Clone for PodId {
    fn clone(&self) -> (r: Self)
        ensures
            r@ == self@,
    {
        PodId { namespace: self.namespace.clone(), name: self.name.clone() }
    }
}

/// True when some identity in `ids` is the same pod as `key`.
pub open spec fn contains_key(ids: Seq<PodId>, key: (Seq<char>, Seq<char>)) -> bool {
    exists|i: int| 0 <= i < ids.len() && #[trigger] ids[i]@ == key
}

/// No pod occurs twice in `ids`.
pub open spec fn no_duplicate_keys(ids: Seq<PodId>) -> bool {
    forall|i: int, j: int| 0 <= i < j < ids.len() ==> ids[i]@ != ids[j]@
}

/// Linear membership test over pod identities.
pub fn contains_id(ids: &Vec<PodId>, id: &PodId) -> (r: bool)
    ensures
        r == contains_key(ids@, id@),
{
    let mut k: usize = 0;
    while k < ids.len()
        invariant
            k <= ids@.len(),
            forall|i: int| 0 <= i < k ==> ids@[i]@ != id@,
        decreases ids@.len() - k,
    {
        if ids[k].key_eq(id) {
            return true;
        }
        k = k + 1;
    }
    false
}

/// What the scheduler reads of a pod observed on the watch or in a relist:
/// its identity, its phase, the scheduler it requests, and the node it is
/// already assigned to, if any.
#[derive(Debug)]
pub struct PodSnapshot {
    pub id: PodId,
    pub phase: String,
    pub scheduler_name: String,
    pub assigned_node: Option<String>,
}

/// A pod is schedulable by this scheduler when it is in the configured
/// pending phase, requests this scheduler by name, and has no node yet.
pub open spec fn spec_schedulable(p: &PodSnapshot, c: &SchedulerConfig) -> bool {
    &&& p.phase@ == c.phase_pending@
    &&& p.scheduler_name@ == c.scheduler_name@
    &&& p.assigned_node is None
}

pub fn is_schedulable(p: &PodSnapshot, c: &SchedulerConfig) -> (r: bool)
    ensures
        r == spec_schedulable(p, c),
{
    p.phase == c.phase_pending && p.scheduler_name == c.scheduler_name
        && p.assigned_node.is_none()
}

} // verus!
