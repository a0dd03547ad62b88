use vstd::prelude::*;
use crate::config::SchedulerConfig;
use crate::pod::{
    PodId,
    PodSnapshot,
    contains_id,
    contains_key,
    is_schedulable,
    no_duplicate_keys,
    spec_schedulable,
};

verus! {

/// Health of the pod-watch subscription.
#[derive(Clone, Copy, Debug, PartialEq, Eq, Structural)]
pub enum WatchPhase {
    /// No subscription is open; the next step is to open one from the cursor.
    Connecting,
    /// Events are being consumed in arrival order.
    Streaming,
    /// The stream ended or failed transiently; reconnect from the cursor.
    Interrupted,
    /// The cursor is too stale to resume; a full relist must run first.
    Invalidated,
}

/// One event observed on the pod watch. Every kind carries the resource
/// version that the cursor advances to.
#[derive(Debug)]
pub enum PodWatchEvent {
    /// A schedulable pod appeared.
    Added { pod: PodSnapshot, resource_version: String },
    /// An already-known pod changed.
    Modified { pod: PodSnapshot, resource_version: String },
    /// A pod went away.
    Deleted { pod: PodSnapshot, resource_version: String },
    /// A progress marker with no pod attached.
    Bookmark { resource_version: String },
}

pub open spec fn event_version(ev: &PodWatchEvent) -> Seq<char> {
    match ev {
        PodWatchEvent::Added { resource_version, .. } => resource_version@,
        PodWatchEvent::Modified { resource_version, .. } => resource_version@,
        PodWatchEvent::Deleted { resource_version, .. } => resource_version@,
        PodWatchEvent::Bookmark { resource_version } => resource_version@,
    }
}

/// State machine over subscription health: Connecting -> Streaming ->
/// (Interrupted | Invalidated) -> Connecting. The cursor is the last-seen
/// resource version; `None` means "start from now".
#[derive(Debug)]
pub struct WatchController {
    pub phase: WatchPhase,
    pub cursor: Option<String>,
}

impl WatchController {
    pub fn new() -> (c: WatchController)
        ensures
            c.phase == WatchPhase::Connecting,
            c.cursor is None,
    {
        WatchController { phase: WatchPhase::Connecting, cursor: None }
    }

    /// The subscription opened; consume events from here on.
    pub fn on_connected(&mut self)
        requires
            old(self).phase == WatchPhase::Connecting,
        ensures
            final(self).phase == WatchPhase::Streaming,
            final(self).cursor == old(self).cursor,
    {
        self.phase = WatchPhase::Streaming;
    }

    /// One event arrived on the stream. The cursor advances to the event's
    /// resource version; only the appearance of a schedulable pod hands an
    /// identity off for assignment, every other event kind is cursor
    /// bookkeeping.
    pub fn on_event(&mut self, ev: PodWatchEvent, config: &SchedulerConfig) -> (d: Option<PodId>)
        requires
            old(self).phase == WatchPhase::Streaming,
        ensures
            final(self).phase == WatchPhase::Streaming,
            final(self).cursor matches Some(v) && v@ == event_version(&ev),
            match ev {
                PodWatchEvent::Added { pod, .. } => {
                    &&& (d is Some <==> spec_schedulable(&pod, config))
                    &&& (d matches Some(id) ==> id@ == pod.id@)
                },
                _ => d is None,
            },
    {
        match ev {
            PodWatchEvent::Added { pod, resource_version } => {
                self.cursor = Some(resource_version);
                if is_schedulable(&pod, config) {
                    Some(pod.id)
                } else {
                    None
                }
            },
            PodWatchEvent::Modified { pod: _, resource_version } => {
                self.cursor = Some(resource_version);
                None
            },
            PodWatchEvent::Deleted { pod: _, resource_version } => {
                self.cursor = Some(resource_version);
                None
            },
            PodWatchEvent::Bookmark { resource_version } => {
                self.cursor = Some(resource_version);
                None
            },
        }
    }

    /// The stream ended or failed with a transient cause; keep the cursor and
    /// reconnect from it after a backoff.
    pub fn on_interrupted(&mut self)
        requires
            old(self).phase == WatchPhase::Streaming || old(self).phase
                == WatchPhase::Connecting,
        ensures
            final(self).phase == WatchPhase::Interrupted,
            final(self).cursor == old(self).cursor,
    {
        self.phase = WatchPhase::Interrupted;
    }

    /// The backoff elapsed; try to reconnect from the kept cursor.
    pub fn on_reconnect(&mut self)
        requires
            old(self).phase == WatchPhase::Interrupted,
        ensures
            final(self).phase == WatchPhase::Connecting,
            final(self).cursor == old(self).cursor,
    {
        self.phase = WatchPhase::Connecting;
    }

    /// The cluster reported the cursor too stale to resume: the cursor is
    /// dead, and a full relist must resynchronize before watching again.
    pub fn on_invalidated(&mut self)
        ensures
            final(self).phase == WatchPhase::Invalidated,
            final(self).cursor is None,
    {
        self.phase = WatchPhase::Invalidated;
        self.cursor = None;
    }
}

/// True when some pod in `pods` is schedulable and has identity `key`.
pub open spec fn listed_schedulable(pods: Seq<PodSnapshot>, c: &SchedulerConfig, key: (
    Seq<char>,
    Seq<char>,
)) -> bool {
    exists|i: int|
        0 <= i < pods.len() && spec_schedulable(&pods[i], c) && #[trigger] pods[i].id@ == key
}

impl WatchController {
    /// Resynchronize after an invalidation: take the fresh list of pods and
    /// its resource version, reset the cursor to that version, and hand back
    /// every pod of the list that is still schedulable — each identity
    /// exactly once, however often it occurs in the list. The controller then
    /// resumes connecting from the new cursor.
    pub fn on_relist(&mut self, pods: &Vec<PodSnapshot>, resource_version: String, config:
        &SchedulerConfig) -> (d: Vec<PodId>)
        requires
            old(self).phase == WatchPhase::Invalidated,
        ensures
            final(self).phase == WatchPhase::Connecting,
            final(self).cursor matches Some(v) && v@ == resource_version@,
            no_duplicate_keys(d@),
            forall|key: (Seq<char>, Seq<char>)|
                contains_key(d@, key) <==> listed_schedulable(pods@, config, key),
    {
        let mut d: Vec<PodId> = Vec::new();
        let mut k: usize = 0;
        while k < pods.len()
            invariant
                k <= pods@.len(),
                no_duplicate_keys(d@),
                forall|key: (Seq<char>, Seq<char>)|
                    contains_key(d@, key) <==> listed_schedulable(pods@.take(k as int), config,
                    key),
            decreases pods@.len() - k,
        {
            let ghost prev = d@;
            if is_schedulable(&pods[k], config) && !contains_id(&d, &pods[k].id) {
                d.push(pods[k].id.clone());
            }
            k = k + 1;
            proof {
                assert forall|key: (Seq<char>, Seq<char>)|
                    contains_key(d@, key) <==> listed_schedulable(pods@.take(k as int), config,
                    key) by {
                    let taken = pods@.take(k as int);
                    let prefix = pods@.take(k - 1);
                    assert(taken[k - 1] == pods@[k - 1]);
                    if contains_key(d@, key) {
                        let i = choose|i: int| 0 <= i < d@.len() && #[trigger] d@[i]@ == key;
                        if i < prev.len() {
                            assert(prev[i]@ == key);
                            assert(contains_key(prev, key));
                            let j = choose|j: int|
                                0 <= j < prefix.len() && spec_schedulable(&prefix[j], config)
                                && #[trigger] prefix[j].id@ == key;
                            assert(prefix[j] == pods@[j]);
                            assert(taken[j] == pods@[j]);
                            assert(spec_schedulable(&taken[j], config) && taken[j].id@ == key);
                        } else {
                            assert(spec_schedulable(&taken[k - 1], config) && taken[k - 1].id@
                                == key);
                        }
                    }
                    if listed_schedulable(taken, config, key) {
                        let j = choose|j: int|
                            0 <= j < taken.len() && spec_schedulable(&taken[j], config)
                            && #[trigger] taken[j].id@ == key;
                        assert(taken[j] == pods@[j]);
                        if j < k - 1 {
                            assert(prefix[j] == pods@[j]);
                            assert(listed_schedulable(prefix, config, key));
                            assert(contains_key(prev, key));
                            let i = choose|i: int| 0 <= i < prev.len() && #[trigger] prev[i]@
                                == key;
                            assert(d@[i]@ == key);
                        } else {
                            if !contains_key(prev, key) {
                                assert(d@[d@.len() - 1]@ == key);
                            }
                        }
                    }
                }
            }
        }
        proof {
            assert(pods@.take(pods@.len() as int) =~= pods@);
        }
        self.phase = WatchPhase::Connecting;
        self.cursor = Some(resource_version);
        d
    }
}

} // verus!
