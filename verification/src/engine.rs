//! The job engine: the execution controller, which accepts work and hands
//! it off, and the lifecycle operations that clients see.
//!
//! The engine never performs the work of a process. Accepting a request
//! yields a [`WorkOrder`]; whoever runs the order reports back with
//! [`WorkerEvent`]s, and the engine turns each into a conditional update of
//! the job.

use vstd::prelude::*;
use crate::config::ApiConfig;
use crate::error::JobError;
use crate::foreign::{
    decode_pairs,
    form_decoded,
    is_json_object,
    is_random_uuid,
    json_object,
    now_millis,
    pair_views,
    random_uuid,
};
use crate::job::{Job, JobModel, StatusInfo, StatusModel};
use crate::link::{item_href, link_views, page_links_model, self_link, Link, LinkModel, LinkRel, build_links};
use crate::paging::{query_of, window_of, PageQuery, PairModel};
use crate::registry::{
    lists,
    place,
    Process,
    ProcessDescription,
    ProcessRegistry,
    ProcessSummary,
    SummaryModel,
};
use crate::status::{JobStatus, StatusSet};
use crate::store::{
    created,
    dismissed,
    filter_of,
    found,
    holds,
    position,
    selected,
    store_inv,
    updated,
    JobFilter,
    JobStore,
    StoreModel,
};

verus! {

/// The mathematical content of a [`WorkOrder`].
pub struct WorkOrderModel {
    pub job_id: Seq<char>,
    pub process_id: Seq<char>,
    pub request: Seq<char>,
}

/// The work that an accepted request asks for, to be run apart from the
/// request that brought it.
#[derive(Debug)]
pub struct WorkOrder {
    pub job_id: String,
    pub process_id: String,
    pub request: String,
}

impl View for WorkOrder {
    type V = WorkOrderModel;

    open spec fn view(&self) -> WorkOrderModel {
        WorkOrderModel { job_id: self.job_id@, process_id: self.process_id@, request: self.request@ }
    }
}

/// The mathematical content of a [`Submission`].
pub struct SubmissionModel {
    pub job: StatusModel,
    pub location: Seq<char>,
    pub order: WorkOrderModel,
}

/// What accepting a request yields: the job's first status document, the
/// address of that document, and the order for the worker.
#[derive(Debug)]
pub struct Submission {
    pub job: StatusInfo,
    pub location: String,
    pub order: WorkOrder,
}

impl View for Submission {
    type V = SubmissionModel;

    open spec fn view(&self) -> SubmissionModel {
        SubmissionModel { job: self.job@, location: self.location@, order: self.order@ }
    }
}

/// The mathematical content of a [`WorkerEvent`].
pub enum EventModel {
    Started,
    Succeeded(Seq<char>),
    Failed(Seq<char>),
}

/// What a worker reports of a job: that it started, that it succeeded with
/// a result, or that it failed with a message.
#[derive(Debug)]
pub enum WorkerEvent {
    Started,
    Succeeded(String),
    Failed(String),
}

impl View for WorkerEvent {
    type V = EventModel;

    open spec fn view(&self) -> EventModel {
        match self {
            WorkerEvent::Started => EventModel::Started,
            WorkerEvent::Succeeded(result) => EventModel::Succeeded(result@),
            WorkerEvent::Failed(message) => EventModel::Failed(message@),
        }
    }
}

/// The mathematical content of a [`JobList`].
pub struct JobListModel {
    pub jobs: Seq<StatusModel>,
    pub links: Seq<LinkModel>,
    pub total: u64,
}

/// One page of the job listing.
#[derive(Debug)]
pub struct JobList {
    pub jobs: Vec<StatusInfo>,
    pub links: Vec<Link>,
    pub total: u64,
}

pub open spec fn info_views(infos: Seq<StatusInfo>) -> Seq<StatusModel> {
    infos.map_values(|i: StatusInfo| i@)
}

impl View for JobList {
    type V = JobListModel;

    open spec fn view(&self) -> JobListModel {
        JobListModel {
            jobs: info_views(self.jobs@),
            links: link_views(self.links@),
            total: self.total,
        }
    }
}

/// The mathematical content of a [`ProcessList`].
pub struct ProcessListModel {
    pub processes: Seq<SummaryModel>,
    pub links: Seq<LinkModel>,
}

/// One page of the process catalogue.
#[derive(Debug)]
pub struct ProcessList {
    pub processes: Vec<ProcessSummary>,
    pub links: Vec<Link>,
}

pub open spec fn summary_views(items: Seq<ProcessSummary>) -> Seq<SummaryModel> {
    items.map_values(|p: ProcessSummary| p@)
}

impl View for ProcessList {
    type V = ProcessListModel;

    open spec fn view(&self) -> ProcessListModel {
        ProcessListModel {
            processes: summary_views(self.processes@),
            links: link_views(self.links@),
        }
    }
}

/// The status document of a job of the collection at `resource`.
pub open spec fn status_document(job: JobModel, resource: Seq<char>) -> StatusModel {
    job.info(seq![self_link(item_href(resource, job.id))])
}

/// What accepting a request for `job` yields.
pub open spec fn submission_of(job: JobModel, resource: Seq<char>, request: Seq<char>) -> SubmissionModel {
    SubmissionModel {
        job: status_document(job, resource),
        location: item_href(resource, job.id),
        order: WorkOrderModel { job_id: job.id, process_id: job.process_id, request },
    }
}

/// Accepting a request, on the model: `NotFound` for an unknown process,
/// `ValidationError` for a malformed request, else a job is created.
pub open spec fn acceptance(
    catalogue: Seq<Process>,
    s: StoreModel,
    process_id: Seq<char>,
    well_formed: bool,
    job_id: Seq<char>,
    now: i64,
) -> (StoreModel, Result<JobModel, JobError>) {
    if !lists(catalogue, process_id) {
        (s, Err(JobError::NotFound))
    } else if !well_formed {
        (s, Err(JobError::ValidationError))
    } else {
        created(s, job_id, process_id, now)
    }
}

/// A worker's report, on the model: the conditional update that the event
/// stands for. Only an accepted job starts; only a running job ends.
pub open spec fn reported(s: StoreModel, job_id: Seq<char>, event: EventModel, now: i64) -> (
    StoreModel,
    Result<JobModel, JobError>,
) {
    match event {
        EventModel::Started => updated(
            s,
            job_id,
            StatusSet::single(JobStatus::Accepted),
            JobStatus::Running,
            None,
            None,
            now,
        ),
        EventModel::Succeeded(result) => updated(
            s,
            job_id,
            StatusSet::single(JobStatus::Running),
            JobStatus::Successful,
            None,
            Some(result),
            now,
        ),
        EventModel::Failed(message) => updated(
            s,
            job_id,
            StatusSet::single(JobStatus::Running),
            JobStatus::Failed,
            Some(message),
            None,
            now,
        ),
    }
}

/// Fetching results, on the model: `NotFound` for an unknown job,
/// `ResultsNotReady` unless the job is successful, else its payload.
pub open spec fn results_in(s: StoreModel, job_id: Seq<char>) -> Result<Seq<char>, JobError> {
    match found(s, job_id) {
        None => Err(JobError::NotFound),
        Some(job) => match job.result {
            Some(payload) if job.status == JobStatus::Successful => Ok(payload),
            _ => Err(JobError::ResultsNotReady),
        },
    }
}

/// The status documents of a list of jobs of the collection at `resource`.
pub open spec fn status_documents(jobs: Seq<JobModel>, resource: Seq<char>) -> Seq<StatusModel> {
    jobs.map_values(|j: JobModel| status_document(j, resource))
}

/// The summaries of a list of processes of the collection at `resource`.
pub open spec fn process_summaries(items: Seq<Process>, resource: Seq<char>) -> Seq<SummaryModel> {
    items.map_values(|p: Process| p.summary_model(item_href(resource, p.id@)))
}

/// Whether an engine and a reply are what accepting a request leaves,
/// given the verdict on the request's shape, the identifier and the time.
pub open spec fn accept_outcome(
    before: JobEngine,
    after: JobEngine,
    r: Result<Submission, JobError>,
    process_id: Seq<char>,
    request: Seq<char>,
    well_formed: bool,
    job_id: Seq<char>,
    now: i64,
) -> bool {
    let expected = acceptance(before.catalogue(), before.jobs(), process_id, well_formed, job_id, now);
    &&& after.settings() == before.settings()
    &&& after.catalogue() == before.catalogue()
    &&& after.jobs() == expected.0
    &&& store_inv(after.jobs())
    &&& match r {
        Ok(sub) => expected.1 matches Ok(job) && sub@ == submission_of(
            job,
            before.settings().jobs_at(),
            request,
        ),
        Err(e) => expected.1 == Err::<JobModel, JobError>(e),
    }
}

/// Whether an engine and a reply are what a change of one job leaves, the
/// change given by its outcome on the model.
pub open spec fn change_outcome(
    before: JobEngine,
    after: JobEngine,
    r: Result<StatusInfo, JobError>,
    expected: (StoreModel, Result<JobModel, JobError>),
) -> bool {
    &&& after.settings() == before.settings()
    &&& after.catalogue() == before.catalogue()
    &&& after.jobs() == expected.0
    &&& store_inv(after.jobs())
    &&& match r {
        Ok(info) => expected.1 matches Ok(job) && info@ == status_document(
            job,
            before.settings().jobs_at(),
        ),
        Err(e) => expected.1 == Err::<JobModel, JobError>(e),
    }
}

/// The job engine.
#[derive(Debug)]
pub struct JobEngine {
    config: ApiConfig,
    registry: ProcessRegistry,
    store: JobStore,
}

impl JobEngine {
    /// The job records, oldest first.
    pub closed spec fn jobs(self) -> StoreModel {
        self.store@
    }

    /// The process catalogue.
    pub closed spec fn catalogue(self) -> Seq<Process> {
        self.registry.entries()
    }

    /// The configuration.
    pub closed spec fn settings(self) -> ApiConfig {
        self.config
    }

    /// Listing jobs, on the model: `ValidationError` where the pairs denote
    /// no listing query or no filter; else the window of the jobs that pass
    /// the filter, as status documents, with the links of the page and the
    /// number of all jobs that pass the filter.
    pub open spec fn job_list_for(self, pairs: Seq<PairModel>) -> Result<JobListModel, JobError> {
        match (query_of(pairs), filter_of(pairs)) {
            (Some(q), Some(filter)) => {
                let page = self.settings().page_bounds().window(q);
                let all = selected(self.jobs(), filter);
                Ok(
                    JobListModel {
                        jobs: status_documents(window_of(all, page), self.settings().jobs_at()),
                        links: page_links_model(
                            self.settings().jobs_at(),
                            q,
                            page,
                            all.len() as u64,
                        ),
                        total: all.len() as u64,
                    },
                )
            },
            _ => Err(JobError::ValidationError),
        }
    }

    /// Listing processes, on the model.
    pub open spec fn process_list_for(self, pairs: Seq<PairModel>) -> Result<
        ProcessListModel,
        JobError,
    > {
        match query_of(pairs) {
            Some(q) => {
                let page = self.settings().page_bounds().window(q);
                Ok(
                    ProcessListModel {
                        processes: process_summaries(
                            window_of(self.catalogue(), page),
                            self.settings().processes_at(),
                        ),
                        links: page_links_model(
                            self.settings().processes_at(),
                            q,
                            page,
                            self.catalogue().len() as u64,
                        ),
                    },
                )
            },
            None => Err(JobError::ValidationError),
        }
    }

    /// An engine over a catalogue, with no jobs yet.
    pub fn new(config: ApiConfig, registry: ProcessRegistry) -> (r: JobEngine)
        ensures
            r.settings() == config,
            r.catalogue() == registry.entries(),
            r.jobs() == StoreModel::empty(),
    {
        JobEngine { config, registry, store: JobStore::new() }
    }

    /// An engine over a catalogue and the job records of an earlier run.
    pub fn with_store(config: ApiConfig, registry: ProcessRegistry, store: JobStore) -> (r:
        JobEngine)
        ensures
            r.settings() == config,
            r.catalogue() == registry.entries(),
            r.jobs() == store@,
    {
        JobEngine { config, registry, store }
    }

    pub fn config(&self) -> (r: &ApiConfig)
        ensures
            *r == self.settings(),
    {
        &self.config
    }

    pub fn registry(&self) -> (r: &ProcessRegistry)
        ensures
            r.entries() == self.catalogue(),
    {
        &self.registry
    }

    pub fn store(&self) -> (r: &JobStore)
        ensures
            r@ == self.jobs(),
            store_inv(self.jobs()),
    {
        proof {
            use_type_invariant(&self.store);
        }
        &self.store
    }

    fn document(&self, job: &Job) -> (r: StatusInfo)
        ensures
            r@ == status_document(job@, self.settings().jobs_at()),
    {
        let mut links: Vec<Link> = Vec::new();
        links.push(Link::new(self.config.job_href(job.id().as_str()), LinkRel::SelfLink));
        assert(link_views(links@) =~= seq![
            self_link(item_href(self.settings().jobs_at(), job@.id)),
        ]);
        job.info(links)
    }

    /// Accepts an execution request whose shape has been judged and for
    /// which an identifier and a time have been drawn: a job in status
    /// `accepted` is created and the order for the worker is made out.
    /// Fails with `NotFound` for an unknown process, `ValidationError` for a
    /// malformed request, `Conflict` where the identifier is taken; the
    /// store then stays as it is.
    pub fn accept(
        &mut self,
        process_id: &str,
        request: &str,
        well_formed: bool,
        job_id: String,
        now: i64,
    ) -> (r: Result<Submission, JobError>)
        ensures
            accept_outcome(
                *old(self),
                *final(self),
                r,
                process_id@,
                request@,
                well_formed,
                job_id@,
                now,
            ),
    {
        proof {
            use_type_invariant(&self.store);
        }
        if !self.registry.contains(process_id) {
            return Err(JobError::NotFound);
        }
        if !well_formed {
            return Err(JobError::ValidationError);
        }
        let outcome = self.store.create(job_id, String::from_str(process_id), now);
        proof {
            use_type_invariant(&self.store);
        }
        let job = match outcome {
            Ok(job) => job,
            Err(e) => {
                return Err(e);
            },
        };
        let order = WorkOrder {
            job_id: job.id().clone(),
            process_id: job.process_id().clone(),
            request: String::from_str(request),
        };
        let location = self.config.job_href(job.id().as_str());
        Ok(Submission { job: self.document(&job), location, order })
    }

    /// Applies a worker's report that came in at time `now`. A report that
    /// no longer applies, because the job was dismissed or has ended, fails
    /// with `NotFound` or `InvalidTransition` and changes nothing: the
    /// worker drops what it has.
    pub fn apply(&mut self, job_id: &str, event: WorkerEvent, now: i64) -> (r: Result<
        StatusInfo,
        JobError,
    >)
        ensures
            change_outcome(
                *old(self),
                *final(self),
                r,
                reported(old(self).jobs(), job_id@, event@, now),
            ),
    {
        let outcome = match event {
            WorkerEvent::Started => self.store.update_status(
                job_id,
                StatusSet::only(JobStatus::Accepted),
                JobStatus::Running,
                None,
                None,
                now,
            ),
            WorkerEvent::Succeeded(result) => self.store.update_status(
                job_id,
                StatusSet::only(JobStatus::Running),
                JobStatus::Successful,
                None,
                Some(result),
                now,
            ),
            WorkerEvent::Failed(message) => self.store.update_status(
                job_id,
                StatusSet::only(JobStatus::Running),
                JobStatus::Failed,
                Some(message),
                None,
                now,
            ),
        };
        proof {
            use_type_invariant(&self.store);
        }
        match outcome {
            Ok(job) => Ok(self.document(&job)),
            Err(e) => Err(e),
        }
    }

    /// The status document of a job; `NotFound` for an unknown identifier.
    pub fn status(&self, job_id: &str) -> (r: Result<StatusInfo, JobError>)
        ensures
            match r {
                Ok(info) => found(self.jobs(), job_id@) matches Some(job) && info@
                    == status_document(job, self.settings().jobs_at()),
                Err(e) => e == JobError::NotFound && found(self.jobs(), job_id@) is None,
            },
    {
        match self.store.get(job_id) {
            Ok(job) => Ok(self.document(job)),
            Err(e) => Err(e),
        }
    }

    /// The result payload of a job, as it was stored: `NotFound` for an
    /// unknown identifier, `ResultsNotReady` unless the job is successful.
    pub fn results(&self, job_id: &str) -> (r: Result<String, JobError>)
        ensures
            match r {
                Ok(payload) => results_in(self.jobs(), job_id@) == Ok::<Seq<char>, JobError>(
                    payload@,
                ),
                Err(e) => results_in(self.jobs(), job_id@) == Err::<Seq<char>, JobError>(e),
            },
            r is Ok <==> (found(self.jobs(), job_id@) matches Some(job) && job.status
                == JobStatus::Successful),
    {
        proof {
            use_type_invariant(&self.store);
        }
        let job = match self.store.get(job_id) {
            Ok(job) => job,
            Err(e) => {
                return Err(e);
            },
        };
        match job.result() {
            Some(payload) => Ok(payload.clone()),
            None => Err(JobError::ResultsNotReady),
        }
    }

    /// Dismisses a job at time `now`: an active job is moved to `dismissed`,
    /// and the record is removed whatever its status. The status document
    /// of the record as it was removed is handed out; `NotFound` for an
    /// unknown identifier.
    pub fn dismiss_at(&mut self, job_id: &str, now: i64) -> (r: Result<StatusInfo, JobError>)
        ensures
            change_outcome(
                *old(self),
                *final(self),
                r,
                dismissed(old(self).jobs(), job_id@, now),
            ),
    {
        let outcome = self.store.dismiss(job_id, now);
        proof {
            use_type_invariant(&self.store);
        }
        match outcome {
            Ok(job) => Ok(self.document(&job)),
            Err(e) => Err(e),
        }
    }

    /// One page of the job listing for the decoded pairs of a query string.
    pub fn list_jobs_for(&self, pairs: &Vec<(String, String)>) -> (r: Result<JobList, JobError>)
        ensures
            match r {
                Ok(list) => self.job_list_for(pair_views(pairs@)) == Ok::<JobListModel, JobError>(
                    list@,
                ),
                Err(e) => self.job_list_for(pair_views(pairs@)) == Err::<JobListModel, JobError>(e),
            },
    {
        let query = match PageQuery::from_pairs(pairs) {
            Ok(q) => q,
            Err(e) => {
                return Err(e);
            },
        };
        let filter = match JobFilter::from_pairs(pairs) {
            Ok(f) => f,
            Err(e) => {
                return Err(e);
            },
        };
        let page = match self.config.paging().resolve(&query) {
            Ok(p) => p,
            Err(e) => {
                return Err(e);
            },
        };
        let listed = self.store.list(&filter, page);
        let ghost shown = window_of(selected(self.jobs(), filter@), page);
        let ghost resource = self.settings().jobs_at();
        let mut jobs: Vec<StatusInfo> = Vec::new();
        let mut i: usize = 0;
        assert(info_views(jobs@) =~= status_documents(shown, resource).take(0));
        while i < listed.jobs.len()
            invariant
                i <= listed.jobs.len(),
                crate::store::ref_views(listed.jobs@) == shown,
                resource == self.settings().jobs_at(),
                info_views(jobs@) == status_documents(shown, resource).take(i as int),
            decreases listed.jobs.len() - i,
        {
            let ghost kept = jobs@;
            let info = self.document(listed.jobs[i]);
            jobs.push(info);
            proof {
                let all = status_documents(shown, resource);
                assert(shown[i as int] == listed.jobs@[i as int]@);
                assert(info_views(jobs@) =~= info_views(kept).push(all[i as int]));
                assert(all.take(i + 1) =~= all.take(i as int).push(all[i as int]));
            }
            i += 1;
        }
        assert(status_documents(shown, resource).take(i as int) =~= status_documents(
            shown,
            resource,
        ));
        let links = build_links(self.config.jobs_url(), &query, page, listed.total).into_vec();
        Ok(JobList { jobs, links, total: listed.total })
    }

    /// One page of the process catalogue for the decoded pairs of a query
    /// string.
    pub fn list_processes_for(&self, pairs: &Vec<(String, String)>) -> (r: Result<
        ProcessList,
        JobError,
    >)
        ensures
            match r {
                Ok(list) => self.process_list_for(pair_views(pairs@)) == Ok::<
                    ProcessListModel,
                    JobError,
                >(list@),
                Err(e) => self.process_list_for(pair_views(pairs@)) == Err::<
                    ProcessListModel,
                    JobError,
                >(e),
            },
    {
        let query = match PageQuery::from_pairs(pairs) {
            Ok(q) => q,
            Err(e) => {
                return Err(e);
            },
        };
        let page = match self.config.paging().resolve(&query) {
            Ok(p) => p,
            Err(e) => {
                return Err(e);
            },
        };
        let listed = self.registry.list(page);
        let ghost shown = window_of(self.catalogue(), page);
        let ghost resource = self.settings().processes_at();
        let mut processes: Vec<ProcessSummary> = Vec::new();
        let mut i: usize = 0;
        assert(summary_views(processes@) =~= process_summaries(shown, resource).take(0));
        while i < listed.processes.len()
            invariant
                i <= listed.processes.len(),
                crate::registry::derefs(listed.processes@) == shown,
                resource == self.settings().processes_at(),
                summary_views(processes@) == process_summaries(shown, resource).take(i as int),
            decreases listed.processes.len() - i,
        {
            let ghost kept = processes@;
            let process = listed.processes[i];
            let summary = process.summary(self.config.process_href(process.id.as_str()));
            processes.push(summary);
            proof {
                let all = process_summaries(shown, resource);
                assert(shown[i as int] == *listed.processes@[i as int]);
                assert(summary_views(processes@) =~= summary_views(kept).push(all[i as int]));
                assert(all.take(i + 1) =~= all.take(i as int).push(all[i as int]));
            }
            i += 1;
        }
        assert(process_summaries(shown, resource).take(i as int) =~= process_summaries(
            shown,
            resource,
        ));
        let links = build_links(
            self.config.processes_url(),
            &query,
            page,
            listed.total,
        ).into_vec();
        Ok(ProcessList { processes, links })
    }

    /// The description of a process; `NotFound` for an unknown identifier.
    pub fn describe_process(&self, process_id: &str) -> (r: Result<ProcessDescription, JobError>)
        ensures
            match r {
                Ok(d) => lists(self.catalogue(), process_id@) && d@ == self.catalogue()[place(
                    self.catalogue(),
                    process_id@,
                )].description_model(item_href(self.settings().processes_at(), process_id@)),
                Err(e) => e == JobError::NotFound && !lists(self.catalogue(), process_id@),
            },
    {
        match self.registry.get(process_id) {
            Ok(process) => Ok(process.describe(self.config.process_href(process_id))),
            Err(e) => Err(e),
        }
    }
    /// Accepts an execution request: judges the shape of the request,
    /// draws a random identifier and reads the clock, then proceeds as
    /// [`JobEngine::accept`] does. The request must be a JSON object.
    ///
    /// The identifier and the time are not the caller's to choose; the
    /// contract says what holds whichever were drawn.
    pub fn submit(&mut self, process_id: &str, request: &str) -> (r: Result<Submission, JobError>)
        ensures
            exists|job_id: Seq<char>, now: i64|
                is_random_uuid(job_id) && #[trigger] accept_outcome(
                    *old(self),
                    *final(self),
                    r,
                    process_id@,
                    request@,
                    json_object(request@),
                    job_id,
                    now,
                ),
            !lists(old(self).catalogue(), process_id@) ==> r == Err::<Submission, JobError>(
                JobError::NotFound,
            ),
            lists(old(self).catalogue(), process_id@) && !json_object(request@) ==> r == Err::<
                Submission,
                JobError,
            >(JobError::ValidationError),
            r is Err ==> final(self).jobs() == old(self).jobs(),
            r matches Ok(sub) ==> {
                &&& lists(old(self).catalogue(), process_id@)
                &&& json_object(request@)
                &&& is_random_uuid(sub.job.job_id@)
                &&& sub.job.status == JobStatus::Accepted
                &&& sub.job.process_id@ == process_id@
                &&& sub.order.job_id@ == sub.job.job_id@
                &&& sub.order.request@ == request@
                &&& sub.location@ == item_href(old(self).settings().jobs_at(), sub.job.job_id@)
                &&& !holds(old(self).jobs(), sub.job.job_id@)
                &&& final(self).jobs().len() == old(self).jobs().len() + 1
                &&& final(self).jobs().last().id == sub.job.job_id@
                &&& final(self).jobs().last().status == JobStatus::Accepted
                &&& final(self).jobs().last().result is None
            },
    {
        let well_formed = is_json_object(request);
        let job_id = random_uuid();
        let now = now_millis();
        let ghost drawn = job_id@;
        let r = self.accept(process_id, request, well_formed, job_id, now);
        proof {
            assert(accept_outcome(
                *old(self),
                *self,
                r,
                process_id@,
                request@,
                json_object(request@),
                drawn,
                now,
            ));
        }
        r
    }

    /// Applies a worker's report at the present time, as
    /// [`JobEngine::apply`] does.
    pub fn report(&mut self, job_id: &str, event: WorkerEvent) -> (r: Result<StatusInfo, JobError>)
        ensures
            exists|now: i64| #[trigger]
                change_outcome(
                    *old(self),
                    *final(self),
                    r,
                    reported(old(self).jobs(), job_id@, event@, now),
                ),
            found(old(self).jobs(), job_id@) is None ==> r == Err::<StatusInfo, JobError>(
                JobError::NotFound,
            ),
            r is Err ==> final(self).jobs() == old(self).jobs(),
    {
        let now = now_millis();
        let ghost before = event@;
        let r = self.apply(job_id, event, now);
        proof {
            assert(change_outcome(
                *old(self),
                *self,
                r,
                reported(old(self).jobs(), job_id@, before, now),
            ));
        }
        r
    }

    /// Dismisses a job at the present time, as [`JobEngine::dismiss_at`]
    /// does.
    pub fn dismiss(&mut self, job_id: &str) -> (r: Result<StatusInfo, JobError>)
        ensures
            exists|now: i64| #[trigger]
                change_outcome(
                    *old(self),
                    *final(self),
                    r,
                    dismissed(old(self).jobs(), job_id@, now),
                ),
            r is Ok <==> holds(old(self).jobs(), job_id@),
            r is Err ==> r == Err::<StatusInfo, JobError>(JobError::NotFound),
            !holds(final(self).jobs(), job_id@),
            final(self).jobs() == if holds(old(self).jobs(), job_id@) {
                old(self).jobs().remove(position(old(self).jobs(), job_id@))
            } else {
                old(self).jobs()
            },
    {
        let now = now_millis();
        proof {
            use_type_invariant(&self.store);
        }
        let r = self.dismiss_at(job_id, now);
        proof {
            let before = old(self).jobs();
            assert(change_outcome(*old(self), *self, r, dismissed(before, job_id@, now)));
            crate::store::dismissal_succeeds_where_found(before, job_id@, now);
            if holds(before, job_id@) {
                crate::store::dismissal_and_update_end_alike(
                    before,
                    job_id@,
                    StatusSet::active_set(),
                    JobStatus::Dismissed,
                    None,
                    None,
                    now,
                    now,
                );
            }
        }
        r
    }

    /// One page of the job listing for a raw query string.
    pub fn list_jobs(&self, query: &str) -> (r: Result<JobList, JobError>)
        ensures
            match r {
                Ok(list) => self.job_list_for(form_decoded(query@)) == Ok::<JobListModel, JobError>(
                    list@,
                ),
                Err(e) => self.job_list_for(form_decoded(query@)) == Err::<JobListModel, JobError>(
                    e,
                ),
            },
    {
        let pairs = decode_pairs(query);
        self.list_jobs_for(&pairs)
    }

    /// One page of the process catalogue for a raw query string.
    pub fn list_processes(&self, query: &str) -> (r: Result<ProcessList, JobError>)
        ensures
            match r {
                Ok(list) => self.process_list_for(form_decoded(query@)) == Ok::<
                    ProcessListModel,
                    JobError,
                >(list@),
                Err(e) => self.process_list_for(form_decoded(query@)) == Err::<
                    ProcessListModel,
                    JobError,
                >(e),
            },
    {
        let pairs = decode_pairs(query);
        self.list_processes_for(&pairs)
    }
}

} // verus!
