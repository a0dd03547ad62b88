use vstd::prelude::*;
use crate::pod::PodId;

verus! {

/// Relies on rand::rng and rand::RngExt::random_range: a value drawn
/// uniformly from the range `0..n`, which is in the range; the call panics
/// only on an empty range, which the precondition rules out.
#[verifier::external_body]
fn random_below(n: usize) -> (r: usize)
    requires
        n > 0,
    ensures
        r < n,
{
    rand::RngExt::random_range(&mut rand::rng(), 0..n)
}

/// A selection policy maps a pod and its current candidate set to one chosen
/// node. It must choose a member of the set whenever the set is non-empty,
/// and report "no candidate" (never fail) on an empty set. Policies may keep
/// state (a round-robin position, a random source), so selection takes the
/// policy by mutable reference.
pub trait SelectionPolicy {
    fn select(&mut self, pod: &PodId, candidates: &Vec<String>) -> (r: Option<String>)
        ensures
            r is Some <==> candidates@.len() > 0,
            r matches Some(node) ==> exists|i: int|
                0 <= i < candidates@.len() && candidates@[i]@ == node@,
    ;
}

/// The baseline policy: a uniform-random choice among the candidates, from
/// the process-wide random source.
pub struct UniformRandomPolicy {}

impl SelectionPolicy for UniformRandomPolicy {
    fn select(&mut self, pod: &PodId, candidates: &Vec<String>) -> (r: Option<String>) {
        if candidates.len() == 0 {
            None
        } else {
            let i = random_below(candidates.len());
            Some(candidates[i].clone())
        }
    }
}

/// A deterministic alternative policy: walks the candidate set round-robin,
/// so repeated selections spread pods over the candidates in order.
pub struct RoundRobinPolicy {
    pub next: usize,
}

impl SelectionPolicy for RoundRobinPolicy {
    fn select(&mut self, pod: &PodId, candidates: &Vec<String>) -> (r: Option<String>) {
        if candidates.len() == 0 {
            None
        } else {
            let i = self.next % candidates.len();
            self.next = if self.next == usize::MAX { 0 } else { self.next + 1 };
            Some(candidates[i].clone())
        }
    }
}

} // verus!
