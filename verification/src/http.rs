//! The HTTP surface: what each operation answers, as a status code, an
//! optional `Location`, and a typed body. Every body is sent as JSON.
//!
//! | request                          | operation     | success |
//! |----------------------------------|---------------|---------|
//! | `GET /processes`                 | [`processes`] | 200     |
//! | `GET /processes/{id}`            | [`process`]   | 200     |
//! | `POST /processes/{id}/execution` | [`execution`] | 202     |
//! | `GET /jobs`                      | [`jobs`]      | 200     |
//! | `GET /jobs/{id}`                 | [`status`]    | 200     |
//! | `DELETE /jobs/{id}`              | [`delete`]    | 204     |
//! | `GET /jobs/{id}/results`         | [`results`]   | 200     |

use vstd::prelude::*;
use crate::engine::{
    acceptance,
    results_in,
    status_document,
    submission_of,
    JobEngine,
    JobList,
    JobListModel,
    ProcessList,
    ProcessListModel,
    Submission,
    SubmissionModel,
    WorkOrder,
    WorkOrderModel,
};
use crate::error::JobError;
use crate::foreign::{form_decoded, is_random_uuid, json_object};
use crate::job::{JobModel, StatusInfo, StatusModel};
use crate::link::item_href;
use crate::registry::{lists, place, DescriptionModel, ProcessDescription};
use crate::store::{dismissed, found, holds, position, store_inv, StoreModel};

verus! {

/// The mathematical content of a [`Body`].
pub enum BodyModel {
    Empty,
    Status(StatusModel),
    Jobs(JobListModel),
    Results(Seq<char>),
    Processes(ProcessListModel),
    Process(DescriptionModel),
    Problem(JobError),
}

/// What a reply carries.
#[derive(Debug)]
pub enum Body {
    Empty,
    Status(StatusInfo),
    Jobs(JobList),
    /// The stored result payload, the text of a JSON document.
    Results(String),
    Processes(ProcessList),
    Process(ProcessDescription),
    Problem(JobError),
}

impl View for Body {
    type V = BodyModel;

    open spec fn view(&self) -> BodyModel {
        match self {
            Body::Empty => BodyModel::Empty,
            Body::Status(info) => BodyModel::Status(info@),
            Body::Jobs(list) => BodyModel::Jobs(list@),
            Body::Results(payload) => BodyModel::Results(payload@),
            Body::Processes(list) => BodyModel::Processes(list@),
            Body::Process(description) => BodyModel::Process(description@),
            Body::Problem(e) => BodyModel::Problem(*e),
        }
    }
}

/// The mathematical content of a [`Reply`].
pub struct ReplyModel {
    pub code: u16,
    pub location: Option<Seq<char>>,
    pub body: BodyModel,
}

/// The answer to a request.
#[derive(Debug)]
pub struct Reply {
    pub code: u16,
    pub location: Option<String>,
    pub body: Body,
}

impl View for Reply {
    type V = ReplyModel;

    open spec fn view(&self) -> ReplyModel {
        ReplyModel {
            code: self.code,
            location: match self.location {
                Some(l) => Some(l@),
                None => None,
            },
            body: self.body@,
        }
    }
}

/// The reply that reports a failure: its status code, and the failure as
/// the body.
pub open spec fn problem_model(e: JobError) -> ReplyModel {
    ReplyModel { code: e.code(), location: None, body: BodyModel::Problem(e) }
}

/// `200 OK` with a body.
pub open spec fn ok_model(body: BodyModel) -> ReplyModel {
    ReplyModel { code: 200, location: None, body }
}

/// The reply to an execution request: `202 Accepted` with the address of
/// the job as `Location` and its first status document as the body.
pub open spec fn execution_model(outcome: Result<SubmissionModel, JobError>) -> ReplyModel {
    match outcome {
        Ok(sub) => ReplyModel {
            code: 202,
            location: Some(sub.location),
            body: BodyModel::Status(sub.job),
        },
        Err(e) => problem_model(e),
    }
}

/// The reply to a status request.
pub open spec fn status_model(job: Option<JobModel>, resource: Seq<char>) -> ReplyModel {
    match job {
        Some(job) => ok_model(BodyModel::Status(status_document(job, resource))),
        None => problem_model(JobError::NotFound),
    }
}

/// The reply to a results request: the payload as it was stored, or the
/// failure. A job that is not successful answers with a conflict.
pub open spec fn results_model(outcome: Result<Seq<char>, JobError>) -> ReplyModel {
    match outcome {
        Ok(payload) => ok_model(BodyModel::Results(payload)),
        Err(e) => problem_model(e),
    }
}

/// The reply to a dismissal: `204 No Content`, or `404` where the job never
/// existed or is gone already.
pub open spec fn delete_model(outcome: Result<JobModel, JobError>) -> ReplyModel {
    match outcome {
        Ok(_) => ReplyModel { code: 204, location: None, body: BodyModel::Empty },
        Err(e) => problem_model(e),
    }
}

/// The reply to a job listing request.
pub open spec fn jobs_model(outcome: Result<JobListModel, JobError>) -> ReplyModel {
    match outcome {
        Ok(list) => ok_model(BodyModel::Jobs(list)),
        Err(e) => problem_model(e),
    }
}

/// The reply to a process listing request.
pub open spec fn processes_model(outcome: Result<ProcessListModel, JobError>) -> ReplyModel {
    match outcome {
        Ok(list) => ok_model(BodyModel::Processes(list)),
        Err(e) => problem_model(e),
    }
}

/// What accepting a request answers and hands to the worker, given the
/// verdict on the request's shape, the identifier and the time.
pub open spec fn execution_outcome(
    before: JobEngine,
    process_id: Seq<char>,
    request: Seq<char>,
    well_formed: bool,
    job_id: Seq<char>,
    now: i64,
) -> (StoreModel, ReplyModel, Option<WorkOrderModel>) {
    let expected = acceptance(before.catalogue(), before.jobs(), process_id, well_formed, job_id, now);
    match expected.1 {
        Ok(job) => {
            let sub = submission_of(job, before.settings().jobs_at(), request);
            (expected.0, execution_model(Ok(sub)), Some(sub.order))
        },
        Err(e) => (expected.0, problem_model(e), None),
    }
}

pub open spec fn order_view(order: Option<WorkOrder>) -> Option<WorkOrderModel> {
    match order {
        Some(o) => Some(o@),
        None => None,
    }
}

/// The reply that reports a failure.
pub fn problem(e: JobError) -> (r: Reply)
    ensures
        r@ == problem_model(e),
        400 <= r.code < 600,
{
    Reply { code: e.status_code(), location: None, body: Body::Problem(e) }
}

/// Turns the outcome of a submission into the reply and the order for the
/// worker: an order goes out exactly with a `202`.
pub fn reply_to_submission(outcome: Result<Submission, JobError>) -> (r: (Reply, Option<WorkOrder>))
    ensures
        match outcome {
            Ok(sub) => r.0@ == execution_model(Ok(sub@)) && order_view(r.1) == Some(sub@.order),
            Err(e) => r.0@ == problem_model(e) && r.1 is None,
        },
        r.0.code == 202 <==> r.1 is Some,
{
    match outcome {
        Ok(sub) => (
            Reply { code: 202, location: Some(sub.location), body: Body::Status(sub.job) },
            Some(sub.order),
        ),
        Err(e) => (problem(e), None),
    }
}

/// `POST /processes/{id}/execution`: accepts the request and answers at
/// once with `202`, the job's address and its first status document. The
/// order that comes with the reply is to be run apart from the request.
/// An unknown process answers `404`, a body that is no JSON object `400`.
pub fn execution(engine: &mut JobEngine, process_id: &str, body: &str) -> (r: (
    Reply,
    Option<WorkOrder>,
))
    ensures
        final(engine).settings() == old(engine).settings(),
        final(engine).catalogue() == old(engine).catalogue(),
        store_inv(final(engine).jobs()),
        exists|job_id: Seq<char>, now: i64|
            is_random_uuid(job_id) && (final(engine).jobs(), r.0@, order_view(r.1))
                == #[trigger] execution_outcome(
                *old(engine),
                process_id@,
                body@,
                json_object(body@),
                job_id,
                now,
            ),
        !lists(old(engine).catalogue(), process_id@) ==> r.0@ == problem_model(JobError::NotFound),
        lists(old(engine).catalogue(), process_id@) && !json_object(body@) ==> r.0@
            == problem_model(JobError::ValidationError),
        r.0.code == 202 <==> r.1 is Some,
        r.0.code != 202 ==> final(engine).jobs() == old(engine).jobs(),
        r.0.code == 202 ==> {
            &&& lists(old(engine).catalogue(), process_id@)
            &&& json_object(body@)
            &&& r.0.body matches Body::Status(info)
            &&& r.0.body->Status_0.status == crate::status::JobStatus::Accepted
            &&& is_random_uuid(r.0.body->Status_0.job_id@)
            &&& r.0.location matches Some(l)
            &&& r.0.location->0@ == item_href(
                old(engine).settings().jobs_at(),
                r.0.body->Status_0.job_id@,
            )
            &&& final(engine).jobs().len() == old(engine).jobs().len() + 1
            &&& final(engine).jobs().last().id == r.0.body->Status_0.job_id@
        },
{
    let outcome = engine.submit(process_id, body);
    let ghost (job_id, now) = choose|job_id: Seq<char>, now: i64|
        is_random_uuid(job_id) && #[trigger] crate::engine::accept_outcome(
            *old(engine),
            *engine,
            outcome,
            process_id@,
            body@,
            json_object(body@),
            job_id,
            now,
        );
    let ghost submitted = outcome;
    let r = reply_to_submission(outcome);
    proof {
        let expected = execution_outcome(
            *old(engine),
            process_id@,
            body@,
            json_object(body@),
            job_id,
            now,
        );
        match submitted {
            Ok(sub) => {
                assert(expected.1 == execution_model(Ok(sub@)));
            },
            Err(e) => {
                assert(expected.1 == problem_model(e));
            },
        }
        assert((engine.jobs(), r.0@, order_view(r.1)) == expected);
    }
    r
}

/// `GET /jobs/{id}`: the status document of the job, without its result;
/// `404` for an unknown job.
pub fn status(engine: &JobEngine, job_id: &str) -> (r: Reply)
    ensures
        r@ == status_model(found(engine.jobs(), job_id@), engine.settings().jobs_at()),
{
    match engine.status(job_id) {
        Ok(info) => Reply { code: 200, location: None, body: Body::Status(info) },
        Err(e) => problem(e),
    }
}

/// `GET /jobs/{id}/results`: the result payload of a successful job as it
/// was stored; `404` for an unknown job, and a conflict while the job is
/// not successful.
pub fn results(engine: &JobEngine, job_id: &str) -> (r: Reply)
    ensures
        r@ == results_model(results_in(engine.jobs(), job_id@)),
        r.code == 200 <==> (found(engine.jobs(), job_id@) matches Some(job) && job.status
            == crate::status::JobStatus::Successful),
{
    match engine.results(job_id) {
        Ok(payload) => Reply { code: 200, location: None, body: Body::Results(payload) },
        Err(e) => problem(e),
    }
}

/// `DELETE /jobs/{id}`: dismisses the job and removes its record; `204`
/// whatever the job's status was, `404` where no such record exists.
pub fn delete(engine: &mut JobEngine, job_id: &str) -> (r: Reply)
    ensures
        final(engine).settings() == old(engine).settings(),
        final(engine).catalogue() == old(engine).catalogue(),
        store_inv(final(engine).jobs()),
        exists|now: i64|
            (final(engine).jobs(), r@) == (
                (#[trigger] dismissed(old(engine).jobs(), job_id@, now)).0,
                delete_model(dismissed(old(engine).jobs(), job_id@, now).1),
            ),
        r.code == 204 <==> holds(old(engine).jobs(), job_id@),
        r.code == 204 || r@ == problem_model(JobError::NotFound),
        !holds(final(engine).jobs(), job_id@),
        final(engine).jobs() == if holds(old(engine).jobs(), job_id@) {
            old(engine).jobs().remove(position(old(engine).jobs(), job_id@))
        } else {
            old(engine).jobs()
        },
{
    let outcome = engine.dismiss(job_id);
    proof {
        let now = choose|now: i64| #[trigger]
            crate::engine::change_outcome(
                *old(engine),
                *engine,
                outcome,
                dismissed(old(engine).jobs(), job_id@, now),
            );
        assert((engine.jobs(), delete_model(dismissed(old(engine).jobs(), job_id@, now).1)).0
            == dismissed(old(engine).jobs(), job_id@, now).0);
    }
    match outcome {
        Ok(_) => Reply { code: 204, location: None, body: Body::Empty },
        Err(e) => problem(e),
    }
}

/// `GET /jobs`: one page of the job listing, with the links of the page;
/// `400` for a query that is no listing query.
pub fn jobs(engine: &JobEngine, query: &str) -> (r: Reply)
    ensures
        r@ == jobs_model(engine.job_list_for(form_decoded(query@))),
{
    match engine.list_jobs(query) {
        Ok(list) => Reply { code: 200, location: None, body: Body::Jobs(list) },
        Err(e) => problem(e),
    }
}

/// `GET /processes`: one page of the process catalogue, with the links of
/// the page; `400` for a query that is no listing query.
pub fn processes(engine: &JobEngine, query: &str) -> (r: Reply)
    ensures
        r@ == processes_model(engine.process_list_for(form_decoded(query@))),
{
    match engine.list_processes(query) {
        Ok(list) => Reply { code: 200, location: None, body: Body::Processes(list) },
        Err(e) => problem(e),
    }
}

/// `GET /processes/{id}`: the description of the process; `404` for an
/// unknown process.
pub fn process(engine: &JobEngine, process_id: &str) -> (r: Reply)
    ensures
        r@ == if lists(engine.catalogue(), process_id@) {
            ok_model(
                BodyModel::Process(
                    engine.catalogue()[place(engine.catalogue(), process_id@)].description_model(
                        item_href(engine.settings().processes_at(), process_id@),
                    ),
                ),
            )
        } else {
            problem_model(JobError::NotFound)
        },
{
    match engine.describe_process(process_id) {
        Ok(description) => Reply { code: 200, location: None, body: Body::Process(description) },
        Err(e) => problem(e),
    }
}

} // verus!
