use vstd::prelude::*;
use vstd::string::StringExecFns;

verus! {

/// Configuration of the scheduler core: the scheduler name that pods must
/// request, and the pod phase that counts as schedulable.
#[derive(Debug)]
pub struct SchedulerConfig {
    pub scheduler_name: String,
    pub phase_pending: String,
}

impl Clone for SchedulerConfig {
    fn clone(&self) -> (c: Self)
        ensures
            c.scheduler_name@ == self.scheduler_name@,
            c.phase_pending@ == self.phase_pending@,
    {
        SchedulerConfig {
            scheduler_name: self.scheduler_name.clone(),
            phase_pending: self.phase_pending.clone(),
        }
    }
}

impl SchedulerConfig {
    pub fn new(scheduler_name: String, phase_pending: String) -> (c: SchedulerConfig)
        ensures
            c.scheduler_name@ == scheduler_name@,
            c.phase_pending@ == phase_pending@,
    {
        SchedulerConfig { scheduler_name, phase_pending }
    }

    /// The server-side field filter of the pod watch: only pods in the
    /// pending phase that request this scheduler by name are streamed.
    pub fn watch_field_filter(&self) -> (s: String)
        ensures
            s@ == "status.phase="@ + self.phase_pending@ + ",spec.schedulerName="@
                + self.scheduler_name@,
    {
        let mut s = String::from_str("status.phase=");
        s.append(self.phase_pending.as_str());
        s.append(",spec.schedulerName=");
        s.append(self.scheduler_name.as_str());
        s
    }
}

impl Default for SchedulerConfig {
    fn default() -> (c: Self)
        ensures
            c.scheduler_name@ == "my-scheduler-rs"@,
            c.phase_pending@ == "Pending"@,
    {
        SchedulerConfig {
            scheduler_name: String::from_str("my-scheduler-rs"),
            phase_pending: String::from_str("Pending"),
        }
    }
}

} // verus!
