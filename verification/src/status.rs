//! The states of a job and the transitions between them.

use vstd::prelude::*;

verus! {

/// The externally visible state of a job.
#[derive(Clone, Copy, Debug, PartialEq, Eq, Structural)]
pub enum JobStatus {
    Accepted,
    Running,
    Successful,
    Failed,
    Dismissed,
}

impl JobStatus {
    /// A terminal status admits no further transition.
    pub open spec fn terminal(self) -> bool {
        self == JobStatus::Successful || self == JobStatus::Failed || self == JobStatus::Dismissed
    }

    /// The transition relation of the job state machine:
    /// `accepted -> running -> {successful, failed}`, and
    /// `accepted | running -> dismissed`.
    pub open spec fn leads_to(self, to: JobStatus) -> bool {
        match self {
            JobStatus::Accepted => to == JobStatus::Running || to == JobStatus::Dismissed,
            JobStatus::Running => to == JobStatus::Successful || to == JobStatus::Failed || to
                == JobStatus::Dismissed,
            _ => false,
        }
    }

    /// The lower-case name under which the status is published.
    pub open spec fn label(self) -> Seq<char> {
        match self {
            JobStatus::Accepted => "accepted"@,
            JobStatus::Running => "running"@,
            JobStatus::Successful => "successful"@,
            JobStatus::Failed => "failed"@,
            JobStatus::Dismissed => "dismissed"@,
        }
    }

    /// The status that a published name stands for, if any.
    pub open spec fn named(text: Seq<char>) -> Option<JobStatus> {
        if text == JobStatus::Accepted.label() {
            Some(JobStatus::Accepted)
        } else if text == JobStatus::Running.label() {
            Some(JobStatus::Running)
        } else if text == JobStatus::Successful.label() {
            Some(JobStatus::Successful)
        } else if text == JobStatus::Failed.label() {
            Some(JobStatus::Failed)
        } else if text == JobStatus::Dismissed.label() {
            Some(JobStatus::Dismissed)
        } else {
            None
        }
    }

    pub fn is_terminal(&self) -> (r: bool)
        ensures
            r == self.terminal(),
    {
        match self {
            JobStatus::Successful | JobStatus::Failed | JobStatus::Dismissed => true,
            _ => false,
        }
    }

    pub fn can_become(&self, to: JobStatus) -> (r: bool)
        ensures
            r == self.leads_to(to),
    {
        match self {
            JobStatus::Accepted => to == JobStatus::Running || to == JobStatus::Dismissed,
            JobStatus::Running => to == JobStatus::Successful || to == JobStatus::Failed || to
                == JobStatus::Dismissed,
            _ => false,
        }
    }

    pub fn as_str(&self) -> (r: &'static str)
        ensures
            r@ == self.label(),
    {
        match self {
            JobStatus::Accepted => "accepted",
            JobStatus::Running => "running",
            JobStatus::Successful => "successful",
            JobStatus::Failed => "failed",
            JobStatus::Dismissed => "dismissed",
        }
    }

    /// Reads a status from its published name; any other text is no status.
    pub fn from_label(text: &str) -> (r: Option<JobStatus>)
        ensures
            r == JobStatus::named(text@),
            r matches Some(s) ==> text@ == s.label(),
    {
        let statuses = [
            JobStatus::Accepted,
            JobStatus::Running,
            JobStatus::Successful,
            JobStatus::Failed,
            JobStatus::Dismissed,
        ];
        let wanted = String::from_str(text);
        let mut i: usize = 0;
        while i < 5
            invariant
                i <= 5,
                wanted@ == text@,
                statuses@ == seq![
                    JobStatus::Accepted,
                    JobStatus::Running,
                    JobStatus::Successful,
                    JobStatus::Failed,
                    JobStatus::Dismissed,
                ],
                forall|k: int| 0 <= k < i ==> text@ != statuses@[k].label(),
            decreases 5 - i,
        {
            let candidate = String::from_str(statuses[i].as_str());
            if wanted == candidate {
                proof {
                    let s = statuses@[i as int];
                    labels_are_distinct(s, JobStatus::Accepted);
                    labels_are_distinct(s, JobStatus::Running);
                    labels_are_distinct(s, JobStatus::Successful);
                    labels_are_distinct(s, JobStatus::Failed);
                    labels_are_distinct(s, JobStatus::Dismissed);
                }
                return Some(statuses[i]);
            }
            i += 1;
        }
        assert(text@ != statuses@[0].label());
        assert(text@ != statuses@[1].label());
        assert(text@ != statuses@[2].label());
        assert(text@ != statuses@[3].label());
        assert(text@ != statuses@[4].label());
        None
    }
}

/// Terminal statuses lead nowhere, and every transition leaves a status that
/// is not terminal.
pub proof fn terminal_is_final(from: JobStatus, to: JobStatus)
    ensures
        from.terminal() ==> !from.leads_to(to),
        from.leads_to(to) ==> !from.terminal() && to != JobStatus::Accepted,
{
}

/// Distinct statuses are published under distinct names.
pub proof fn labels_are_distinct(a: JobStatus, b: JobStatus)
    ensures
        a.label() == b.label() ==> a == b,
{
    reveal_strlit("accepted");
    reveal_strlit("running");
    reveal_strlit("successful");
    reveal_strlit("failed");
    reveal_strlit("dismissed");
    if a != b {
        assert(a.label().len() != b.label().len() || a.label()[0] != b.label()[0]);
    }
}

/// Reading the published name of a status gives the status back.
pub proof fn label_reads_back(s: JobStatus)
    ensures
        JobStatus::named(s.label()) == Some(s),
{
    labels_are_distinct(s, JobStatus::Accepted);
    labels_are_distinct(s, JobStatus::Running);
    labels_are_distinct(s, JobStatus::Successful);
    labels_are_distinct(s, JobStatus::Failed);
    labels_are_distinct(s, JobStatus::Dismissed);
}

/// A set of statuses, as the guard of a conditional update.
#[derive(Clone, Copy, Debug, PartialEq, Eq, Structural)]
pub struct StatusSet {
    pub accepted: bool,
    pub running: bool,
    pub successful: bool,
    pub failed: bool,
    pub dismissed: bool,
}

impl StatusSet {
    pub open spec fn has(self, s: JobStatus) -> bool {
        match s {
            JobStatus::Accepted => self.accepted,
            JobStatus::Running => self.running,
            JobStatus::Successful => self.successful,
            JobStatus::Failed => self.failed,
            JobStatus::Dismissed => self.dismissed,
        }
    }

    /// The statuses from which a job can still be dismissed.
    pub open spec fn active_set() -> StatusSet {
        StatusSet {
            accepted: true,
            running: true,
            successful: false,
            failed: false,
            dismissed: false,
        }
    }

    pub open spec fn single(s: JobStatus) -> StatusSet {
        StatusSet {
            accepted: s == JobStatus::Accepted,
            running: s == JobStatus::Running,
            successful: s == JobStatus::Successful,
            failed: s == JobStatus::Failed,
            dismissed: s == JobStatus::Dismissed,
        }
    }

    pub fn empty() -> (r: StatusSet)
        ensures
            forall|s: JobStatus| !r.has(s),
    {
        StatusSet {
            accepted: false,
            running: false,
            successful: false,
            failed: false,
            dismissed: false,
        }
    }

    pub fn only(s: JobStatus) -> (r: StatusSet)
        ensures
            r == StatusSet::single(s),
            forall|t: JobStatus| r.has(t) <==> t == s,
    {
        StatusSet {
            accepted: s == JobStatus::Accepted,
            running: s == JobStatus::Running,
            successful: s == JobStatus::Successful,
            failed: s == JobStatus::Failed,
            dismissed: s == JobStatus::Dismissed,
        }
    }

    pub fn active() -> (r: StatusSet)
        ensures
            r == StatusSet::active_set(),
            forall|t: JobStatus| r.has(t) <==> !t.terminal(),
    {
        StatusSet {
            accepted: true,
            running: true,
            successful: false,
            failed: false,
            dismissed: false,
        }
    }

    /// The set with `s` added.
    pub fn with(self, s: JobStatus) -> (r: StatusSet)
        ensures
            forall|t: JobStatus| r.has(t) <==> (self.has(t) || t == s),
    {
        StatusSet {
            accepted: self.accepted || s == JobStatus::Accepted,
            running: self.running || s == JobStatus::Running,
            successful: self.successful || s == JobStatus::Successful,
            failed: self.failed || s == JobStatus::Failed,
            dismissed: self.dismissed || s == JobStatus::Dismissed,
        }
    }

    pub fn contains(&self, s: JobStatus) -> (r: bool)
        ensures
            r == self.has(s),
    {
        match s {
            JobStatus::Accepted => self.accepted,
            JobStatus::Running => self.running,
            JobStatus::Successful => self.successful,
            JobStatus::Failed => self.failed,
            JobStatus::Dismissed => self.dismissed,
        }
    }
}

} // verus!
