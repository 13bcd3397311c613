//! The job record and the rule by which it changes.

use vstd::prelude::*;
use crate::error::JobError;
use crate::link::{link_views, Link, LinkModel};
use crate::status::{JobStatus, StatusSet};

verus! {

/// The mathematical content of a [`Job`]. Times are milliseconds since the
/// Unix epoch; the result is the text of a JSON document.
pub struct JobModel {
    pub id: Seq<char>,
    pub process_id: Seq<char>,
    pub status: JobStatus,
    pub created: i64,
    pub started: Option<i64>,
    pub finished: Option<i64>,
    pub message: Option<Seq<char>>,
    pub result: Option<Seq<char>>,
}

impl JobModel {
    /// What holds of every job at all times: a result is present exactly
    /// when the job is successful, a finishing time exactly when it is
    /// terminal, and a starting time never before and always after the job
    /// ran.
    pub open spec fn consistent(self) -> bool {
        &&& self.result is Some <==> self.status == JobStatus::Successful
        &&& self.finished is Some <==> self.status.terminal()
        &&& self.status == JobStatus::Accepted ==> self.started is None
        &&& (self.status == JobStatus::Running || self.status == JobStatus::Successful
            || self.status == JobStatus::Failed) ==> self.started is Some
    }

    /// A job as it is created: accepted, with nothing but its creation time.
    pub open spec fn fresh(id: Seq<char>, process_id: Seq<char>, created: i64) -> JobModel {
        JobModel {
            id,
            process_id,
            status: JobStatus::Accepted,
            created,
            started: None,
            finished: None,
            message: None,
            result: None,
        }
    }

    /// Whether a conditional update applies: the current status is in the
    /// allowed set, the target can be reached from it, and a result comes
    /// with the target `successful` and with no other.
    pub open spec fn admits(self, from: StatusSet, to: JobStatus, result: Option<Seq<char>>) -> bool {
        &&& from.has(self.status)
        &&& self.status.leads_to(to)
        &&& result is Some <==> to == JobStatus::Successful
    }

    /// The job after an update that applies. A message replaces the one
    /// held; without one the message stays.
    pub open spec fn moved(
        self,
        to: JobStatus,
        message: Option<Seq<char>>,
        result: Option<Seq<char>>,
        now: i64,
    ) -> JobModel {
        JobModel {
            status: to,
            started: if to == JobStatus::Running {
                Some(now)
            } else {
                self.started
            },
            finished: if to.terminal() {
                Some(now)
            } else {
                self.finished
            },
            message: if message is Some {
                message
            } else {
                self.message
            },
            result,
            ..self
        }
    }

    /// The job as a listing or a status document shows it: without its
    /// result, under the given links.
    pub open spec fn info(self, links: Seq<LinkModel>) -> StatusModel {
        StatusModel {
            job_id: self.id,
            process_id: self.process_id,
            status: self.status,
            created: self.created,
            started: self.started,
            finished: self.finished,
            message: self.message,
            links,
        }
    }
}

/// The mathematical content of a [`StatusInfo`].
pub struct StatusModel {
    pub job_id: Seq<char>,
    pub process_id: Seq<char>,
    pub status: JobStatus,
    pub created: i64,
    pub started: Option<i64>,
    pub finished: Option<i64>,
    pub message: Option<Seq<char>>,
    pub links: Seq<LinkModel>,
}

/// The status document of a job: the job without its result payload, with
/// the links that lead to it.
#[derive(Debug)]
pub struct StatusInfo {
    pub job_id: String,
    pub process_id: String,
    pub status: JobStatus,
    pub created: i64,
    pub started: Option<i64>,
    pub finished: Option<i64>,
    pub message: Option<String>,
    pub links: Vec<Link>,
}

impl View for StatusInfo {
    type V = StatusModel;

    open spec fn view(&self) -> StatusModel {
        StatusModel {
            job_id: self.job_id@,
            process_id: self.process_id@,
            status: self.status,
            created: self.created,
            started: self.started,
            finished: self.finished,
            message: text_view(self.message),
            links: link_views(self.links@),
        }
    }
}

/// A fresh job is consistent, and an update that applies keeps a job so.
pub proof fn updates_keep_jobs_consistent(
    job: JobModel,
    from: StatusSet,
    to: JobStatus,
    message: Option<Seq<char>>,
    result: Option<Seq<char>>,
    now: i64,
)
    ensures
        JobModel::fresh(job.id, job.process_id, job.created).consistent(),
        job.consistent() && job.admits(from, to, result) ==> job.moved(
            to,
            message,
            result,
            now,
        ).consistent(),
{
}

/// No update applies to a job whose status is terminal.
pub proof fn terminal_jobs_admit_nothing(
    job: JobModel,
    from: StatusSet,
    to: JobStatus,
    result: Option<Seq<char>>,
)
    requires
        job.status.terminal(),
    ensures
        !job.admits(from, to, result),
{
}

pub open spec fn text_view(text: Option<String>) -> Option<Seq<char>> {
    match text {
        Some(t) => Some(t@),
        None => None,
    }
}

pub fn clone_text(text: &Option<String>) -> (r: Option<String>)
    ensures
        r == *text,
{
    match text {
        Some(t) => Some(t.clone()),
        None => None,
    }
}

/// One execution of a process.
#[derive(Debug)]
pub struct Job {
    id: String,
    process_id: String,
    status: JobStatus,
    created: i64,
    started: Option<i64>,
    finished: Option<i64>,
    message: Option<String>,
    result: Option<String>,
}

impl View for Job {
    type V = JobModel;

    closed spec fn view(&self) -> JobModel {
        JobModel {
            id: self.id@,
            process_id: self.process_id@,
            status: self.status,
            created: self.created,
            started: self.started,
            finished: self.finished,
            message: text_view(self.message),
            result: text_view(self.result),
        }
    }
}

impl Clone for Job {
    fn clone(&self) -> (r: Job)
        ensures
            r@ == self@,
    {
        proof {
            use_type_invariant(self);
        }
        Job {
            id: self.id.clone(),
            process_id: self.process_id.clone(),
            status: self.status,
            created: self.created,
            started: self.started,
            finished: self.finished,
            message: clone_text(&self.message),
            result: clone_text(&self.result),
        }
    }
}

impl Job {
    #[verifier::type_invariant]
    pub open spec fn sound(self) -> bool {
        self@.consistent()
    }

    /// A new job in status `accepted`.
    pub fn accepted(id: String, process_id: String, created: i64) -> (r: Job)
        ensures
            r@ == JobModel::fresh(id@, process_id@, created),
    {
        Job {
            id,
            process_id,
            status: JobStatus::Accepted,
            created,
            started: None,
            finished: None,
            message: None,
            result: None,
        }
    }

    /// The job after a conditional update, or `InvalidTransition` where the
    /// update does not apply.
    pub fn transition(
        &self,
        from: StatusSet,
        to: JobStatus,
        message: Option<String>,
        result: Option<String>,
        now: i64,
    ) -> (r: Result<Job, JobError>)
        ensures
            match r {
                Ok(job) => self@.admits(from, to, text_view(result)) && job@ == self@.moved(
                    to,
                    text_view(message),
                    text_view(result),
                    now,
                ),
                Err(e) => e == JobError::InvalidTransition && !self@.admits(
                    from,
                    to,
                    text_view(result),
                ),
            },
    {
        proof {
            use_type_invariant(self);
        }
        let fits = result.is_some() == (to == JobStatus::Successful);
        if !(from.contains(self.status) && self.status.can_become(to) && fits) {
            return Err(JobError::InvalidTransition);
        }
        Ok(
            Job {
                id: self.id.clone(),
                process_id: self.process_id.clone(),
                status: to,
                created: self.created,
                started: if to == JobStatus::Running {
                    Some(now)
                } else {
                    self.started
                },
                finished: if to.is_terminal() {
                    Some(now)
                } else {
                    self.finished
                },
                message: if message.is_some() {
                    message
                } else {
                    clone_text(&self.message)
                },
                result,
            },
        )
    }

    /// A job from its stored parts, where they make a consistent record.
    pub fn restore(
        id: String,
        process_id: String,
        status: JobStatus,
        created: i64,
        started: Option<i64>,
        finished: Option<i64>,
        message: Option<String>,
        result: Option<String>,
    ) -> (r: Option<Job>)
        ensures
            ({
                let model = JobModel {
                    id: id@,
                    process_id: process_id@,
                    status,
                    created,
                    started,
                    finished,
                    message: text_view(message),
                    result: text_view(result),
                };
                match r {
                    Some(job) => job@ == model && model.consistent(),
                    None => !model.consistent(),
                }
            }),
    {
        let ran = match status {
            JobStatus::Running | JobStatus::Successful | JobStatus::Failed => true,
            _ => false,
        };
        let sound = result.is_some() == (status == JobStatus::Successful) && finished.is_some()
            == status.is_terminal() && !(status == JobStatus::Accepted && started.is_some()) && !(
        ran && started.is_none());
        if sound {
            Some(Job { id, process_id, status, created, started, finished, message, result })
        } else {
            None
        }
    }

    /// The status document of the job under the given links.
    pub fn info(&self, links: Vec<Link>) -> (r: StatusInfo)
        ensures
            r@ == self@.info(link_views(links@)),
    {
        StatusInfo {
            job_id: self.id.clone(),
            process_id: self.process_id.clone(),
            status: self.status,
            created: self.created,
            started: self.started,
            finished: self.finished,
            message: clone_text(&self.message),
            links,
        }
    }

    pub fn id(&self) -> (r: &String)
        ensures
            r@ == self@.id,
    {
        &self.id
    }

    pub fn process_id(&self) -> (r: &String)
        ensures
            r@ == self@.process_id,
    {
        &self.process_id
    }

    pub fn status(&self) -> (r: JobStatus)
        ensures
            r == self@.status,
    {
        self.status
    }

    pub fn created(&self) -> (r: i64)
        ensures
            r == self@.created,
    {
        self.created
    }

    pub fn started(&self) -> (r: Option<i64>)
        ensures
            r == self@.started,
            self@.status == JobStatus::Accepted ==> r is None,
    {
        proof {
            use_type_invariant(self);
        }
        self.started
    }

    pub fn finished(&self) -> (r: Option<i64>)
        ensures
            r == self@.finished,
            r is Some <==> self@.status.terminal(),
    {
        proof {
            use_type_invariant(self);
        }
        self.finished
    }

    pub fn message(&self) -> (r: &Option<String>)
        ensures
            text_view(*r) == self@.message,
    {
        &self.message
    }

    /// The result payload: present exactly when the job is successful.
    pub fn result(&self) -> (r: &Option<String>)
        ensures
            text_view(*r) == self@.result,
            r is Some <==> self@.status == JobStatus::Successful,
    {
        proof {
            use_type_invariant(self);
        }
        &self.result
    }
}

} // verus!
