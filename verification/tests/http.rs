use ogcapi_jobs::config::ApiConfig;
use ogcapi_jobs::engine::{JobEngine, WorkerEvent};
use ogcapi_jobs::error::JobError;
use ogcapi_jobs::http::{
    delete, execution, jobs, problem, process, processes, reply_to_submission, results, status, Body, Reply,
};
use ogcapi_jobs::link::LinkRel;
use ogcapi_jobs::paging::PageConfig;
use ogcapi_jobs::registry::{Process, ProcessRegistry};
use ogcapi_jobs::status::JobStatus;

fn s(text: &str) -> String {
    text.to_string()
}

fn engine() -> JobEngine {
    let config = ApiConfig::new("http://localhost:8080", PageConfig::new(10, 100).unwrap()).unwrap();
    let mut registry = ProcessRegistry::new();
    registry
        .register(Process {
            id: s("echo"),
            title: s("Echo"),
            description: s("Hands its input back"),
            version: s("1.0.0"),
            inputs: vec![],
            outputs: vec![],
            sync_execute: false,
            async_execute: true,
        })
        .unwrap();
    JobEngine::new(config, registry)
}

fn problem_of(reply: &Reply) -> Option<JobError> {
    match &reply.body {
        Body::Problem(e) => Some(*e),
        _ => None,
    }
}

fn job_status(reply: &Reply) -> JobStatus {
    match &reply.body {
        Body::Status(info) => info.status,
        other => panic!("no status document: {:?}", other),
    }
}

#[test]
fn an_execution_runs_from_submission_to_results() {
    let mut e = engine();
    // submit
    let (reply, order) = execution(&mut e, "echo", "{\"inputs\": {\"value\": 42}}");
    assert_eq!(reply.code, 202);
    let order = order.unwrap();
    let id = order.job_id.clone();
    let location = reply.location.clone().unwrap();
    assert!(location.ends_with(&format!("/jobs/{}", id)));
    assert_eq!(location, format!("http://localhost:8080/jobs/{}", id));
    assert_eq!(job_status(&reply), JobStatus::Accepted);
    assert_eq!(order.process_id, "echo");
    assert_eq!(order.request, "{\"inputs\": {\"value\": 42}}");
    // poll before the worker is done
    let polled = status(&e, &id);
    assert_eq!(polled.code, 200);
    assert_eq!(job_status(&polled), JobStatus::Accepted);
    assert_eq!(results(&e, &id).code, 409);
    e.report(&id, WorkerEvent::Started).unwrap();
    let polled = status(&e, &id);
    assert_eq!(polled.code, 200);
    assert_eq!(job_status(&polled), JobStatus::Running);
    // results of a running job: a conflict, not a payload
    let early = results(&e, &id);
    assert_eq!(early.code, 409);
    assert_eq!(problem_of(&early), Some(JobError::ResultsNotReady));
    // the worker completes
    e.report(&id, WorkerEvent::Succeeded(s("{\"value\": 42}"))).unwrap();
    assert_eq!(job_status(&status(&e, &id)), JobStatus::Successful);
    let ready = results(&e, &id);
    assert_eq!(ready.code, 200);
    assert_eq!(ready.location, None);
    match ready.body {
        Body::Results(payload) => assert_eq!(payload, "{\"value\": 42}"),
        other => panic!("no results: {:?}", other),
    }
}

#[test]
fn dismissing_an_accepted_job_answers_204_and_the_job_is_gone() {
    let mut e = engine();
    let (_, order) = execution(&mut e, "echo", "{}");
    let id = order.unwrap().job_id;
    let reply = delete(&mut e, &id);
    assert_eq!(reply.code, 204);
    assert_eq!(reply.location, None);
    assert!(matches!(reply.body, Body::Empty));
    let after = status(&e, &id);
    assert_eq!(after.code, 404);
    assert_eq!(problem_of(&after), Some(JobError::NotFound));
    assert_eq!(results(&e, &id).code, 404);
    assert_eq!(delete(&mut e, &id).code, 404);
}

#[test]
fn dismissing_a_finished_job_answers_204_too() {
    let mut e = engine();
    let (_, order) = execution(&mut e, "echo", "{}");
    let id = order.unwrap().job_id;
    e.report(&id, WorkerEvent::Started).unwrap();
    e.report(&id, WorkerEvent::Failed(s("boom"))).unwrap();
    assert_eq!(delete(&mut e, &id).code, 204);
    assert_eq!(status(&e, &id).code, 404);
}

#[test]
fn dismissing_what_never_existed_answers_404() {
    let mut e = engine();
    let reply = delete(&mut e, "no-such-job");
    assert_eq!(reply.code, 404);
    assert_eq!(problem_of(&reply), Some(JobError::NotFound));
}

#[test]
fn the_second_page_of_twenty_five_jobs_has_ten_jobs_and_both_links() {
    let mut e = engine();
    for i in 0..25 {
        e.accept("echo", "{}", true, format!("job-{:02}", i), i).unwrap();
    }
    let reply = jobs(&e, "limit=10&offset=10");
    assert_eq!(reply.code, 200);
    let list = match reply.body {
        Body::Jobs(list) => list,
        other => panic!("no job list: {:?}", other),
    };
    assert_eq!(list.jobs.len(), 10);
    assert_eq!(list.jobs[0].job_id, "job-10");
    assert_eq!(list.jobs[9].job_id, "job-19");
    let prev: Vec<&str> = list.links.iter().filter(|l| l.rel == LinkRel::Prev).map(|l| l.href.as_str()).collect();
    let next: Vec<&str> = list.links.iter().filter(|l| l.rel == LinkRel::Next).map(|l| l.href.as_str()).collect();
    assert_eq!(prev, vec!["http://localhost:8080/jobs?limit=10&offset=0"]);
    assert_eq!(next, vec!["http://localhost:8080/jobs?limit=10&offset=20"]);
}

#[test]
fn following_next_and_then_prev_leads_back() {
    let mut e = engine();
    for i in 0..25 {
        e.accept("echo", "{}", true, format!("job-{:02}", i), i).unwrap();
    }
    let first = match jobs(&e, "limit=10&offset=7").body {
        Body::Jobs(list) => list,
        other => panic!("no job list: {:?}", other),
    };
    let next = first.links.iter().find(|l| l.rel == LinkRel::Next).unwrap();
    let query = next.href.split('?').nth(1).unwrap();
    assert_eq!(query, "limit=10&offset=17");
    let second = match jobs(&e, query).body {
        Body::Jobs(list) => list,
        other => panic!("no job list: {:?}", other),
    };
    let prev = second.links.iter().find(|l| l.rel == LinkRel::Prev).unwrap();
    assert_eq!(prev.href, first.links[0].href);
    assert_eq!(prev.href, "http://localhost:8080/jobs?limit=10&offset=7");
}

#[test]
fn a_bad_listing_query_answers_400() {
    let e = engine();
    for query in ["limit=0", "limit=ten", "offset=-3", "limit=1&limit=1", "status=finished"] {
        let reply = jobs(&e, query);
        assert_eq!(reply.code, 400, "{}", query);
        assert_eq!(problem_of(&reply), Some(JobError::ValidationError));
    }
    assert_eq!(processes(&e, "limit=0").code, 400);
}

#[test]
fn an_execution_for_an_unknown_process_answers_404() {
    let mut e = engine();
    let (reply, order) = execution(&mut e, "nope", "{}");
    assert_eq!(reply.code, 404);
    assert_eq!(problem_of(&reply), Some(JobError::NotFound));
    assert!(order.is_none());
    assert_eq!(reply.location, None);
    assert_eq!(e.store().len(), 0);
}

#[test]
fn an_execution_with_a_malformed_body_answers_400() {
    let mut e = engine();
    let (reply, order) = execution(&mut e, "echo", "[1, 2, 3]");
    assert_eq!(reply.code, 400);
    assert_eq!(problem_of(&reply), Some(JobError::ValidationError));
    assert!(order.is_none());
    assert_eq!(e.store().len(), 0);
}

#[test]
fn processes_are_listed_and_described() {
    let e = engine();
    let reply = processes(&e, "");
    assert_eq!(reply.code, 200);
    match reply.body {
        Body::Processes(list) => {
            assert_eq!(list.processes.len(), 1);
            assert_eq!(list.processes[0].id, "echo");
        },
        other => panic!("no process list: {:?}", other),
    }
    let reply = process(&e, "echo");
    assert_eq!(reply.code, 200);
    match reply.body {
        Body::Process(d) => assert_eq!(d.summary.title, "Echo"),
        other => panic!("no description: {:?}", other),
    }
    let reply = process(&e, "nope");
    assert_eq!(reply.code, 404);
    assert_eq!(problem_of(&reply), Some(JobError::NotFound));
}

#[test]
fn every_failure_has_its_reply() {
    for (e, code) in [
        (JobError::NotFound, 404),
        (JobError::Conflict, 409),
        (JobError::InvalidTransition, 409),
        (JobError::ResultsNotReady, 409),
        (JobError::ValidationError, 400),
        (JobError::StorageUnavailable, 503),
    ] {
        let reply = problem(e);
        assert_eq!(reply.code, code);
        assert_eq!(reply.location, None);
        assert_eq!(problem_of(&reply), Some(e));
    }
}

#[test]
fn a_conflict_on_submission_is_answered_not_hidden() {
    let mut e = engine();
    e.accept("echo", "{}", true, s("taken"), 1).unwrap();
    let (reply, order) = reply_to_submission(e.accept("echo", "{}", true, s("taken"), 2));
    assert_eq!(reply.code, 409);
    assert_eq!(problem_of(&reply), Some(JobError::Conflict));
    assert!(order.is_none());
}
