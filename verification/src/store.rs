//! The job store: the one place where job records change.
//!
//! The store is modelled as the sequence of its records in the order of
//! their creation. Each operation is first defined on that model; the
//! executable store is proved to do what the model says.

use vstd::prelude::*;
use crate::error::JobError;
use crate::job::{text_view, Job, JobModel};
use crate::foreign::pair_views;
use crate::paging::{single_of, single_value, window_of, Page, PairModel};
use crate::status::{JobStatus, StatusSet};

verus! {

/// The contents of a store: its records, oldest first.
pub type StoreModel = Seq<JobModel>;

/// Whether a record with the identifier exists.
pub open spec fn holds(s: StoreModel, id: Seq<char>) -> bool {
    exists|i: int| 0 <= i < s.len() && #[trigger] s[i].id == id
}

/// The place of the record with the identifier.
pub open spec fn position(s: StoreModel, id: Seq<char>) -> int {
    choose|i: int| 0 <= i < s.len() && #[trigger] s[i].id == id
}

/// The record with the identifier, if there is one.
pub open spec fn found(s: StoreModel, id: Seq<char>) -> Option<JobModel> {
    if holds(s, id) {
        Some(s[position(s, id)])
    } else {
        None
    }
}

/// What holds of every store: no identifier occurs twice, and every record
/// is consistent.
pub open spec fn store_inv(s: StoreModel) -> bool {
    &&& forall|i: int, j: int|
        0 <= i < s.len() && 0 <= j < s.len() && i != j ==> #[trigger] s[i].id != #[trigger] s[j].id
    &&& forall|i: int| 0 <= i < s.len() ==> (#[trigger] s[i]).consistent()
}

/// Adding a record: refused with `Conflict` where the identifier is taken,
/// else the record is appended.
pub open spec fn inserted(s: StoreModel, job: JobModel) -> (StoreModel, Result<JobModel, JobError>) {
    if holds(s, job.id) {
        (s, Err(JobError::Conflict))
    } else {
        (s.push(job), Ok(job))
    }
}

/// Creating a job: a fresh record in status `accepted` is added.
pub open spec fn created(s: StoreModel, id: Seq<char>, process_id: Seq<char>, now: i64) -> (
    StoreModel,
    Result<JobModel, JobError>,
) {
    inserted(s, JobModel::fresh(id, process_id, now))
}

/// The conditional update: `NotFound` for an unknown identifier,
/// `InvalidTransition` where the update does not apply to the record, else
/// the record is replaced in its place by the updated one.
pub open spec fn updated(
    s: StoreModel,
    id: Seq<char>,
    from: StatusSet,
    to: JobStatus,
    message: Option<Seq<char>>,
    result: Option<Seq<char>>,
    now: i64,
) -> (StoreModel, Result<JobModel, JobError>) {
    match found(s, id) {
        None => (s, Err(JobError::NotFound)),
        Some(job) => if job.admits(from, to, result) {
            let next = job.moved(to, message, result, now);
            (s.update(position(s, id), next), Ok(next))
        } else {
            (s, Err(JobError::InvalidTransition))
        },
    }
}

/// Deleting a record: `NotFound` for an unknown identifier, else the record
/// is removed, whatever its status.
pub open spec fn deleted(s: StoreModel, id: Seq<char>) -> (StoreModel, Result<JobModel, JobError>) {
    match found(s, id) {
        None => (s, Err(JobError::NotFound)),
        Some(job) => (s.remove(position(s, id)), Ok(job)),
    }
}

/// The mathematical content of a [`JobFilter`].
pub struct JobFilterModel {
    pub process_id: Option<Seq<char>>,
    pub status: Option<JobStatus>,
}

impl JobFilterModel {
    /// Whether a record passes the filter.
    pub open spec fn admits(self, job: JobModel) -> bool {
        &&& self.process_id matches Some(p) ==> job.process_id == p
        &&& self.status matches Some(s) ==> job.status == s
    }

    pub open spec fn test(self) -> spec_fn(JobModel) -> bool {
        |job: JobModel| self.admits(job)
    }
}

/// The records that pass a filter, oldest first.
pub open spec fn selected(s: StoreModel, filter: JobFilterModel) -> StoreModel {
    s.filter(filter.test())
}

/// A restriction of a job listing.
#[derive(Debug)]
pub struct JobFilter {
    pub process_id: Option<String>,
    pub status: Option<JobStatus>,
}

impl View for JobFilter {
    type V = JobFilterModel;

    open spec fn view(&self) -> JobFilterModel {
        JobFilterModel { process_id: text_view(self.process_id), status: self.status }
    }
}

/// The filter that the pairs of a query denote, if any: `processID` and
/// `status` each at most once, `status` the published name of a status.
pub open spec fn filter_of(pairs: Seq<PairModel>) -> Option<JobFilterModel> {
    match (single_of(pairs, "processID"@), single_of(pairs, "status"@)) {
        (Some(process_id), Some(None)) => Some(JobFilterModel { process_id, status: None }),
        (Some(process_id), Some(Some(text))) => match JobStatus::named(text) {
            Some(status) => Some(JobFilterModel { process_id, status: Some(status) }),
            None => None,
        },
        _ => None,
    }
}

impl JobFilter {
    /// Reads a filter from the decoded pairs of a query string. A repeated
    /// `processID` or `status`, and a `status` that names no status, are
    /// refused as `ValidationError`.
    pub fn from_pairs(pairs: &Vec<(String, String)>) -> (r: Result<JobFilter, JobError>)
        ensures
            match r {
                Ok(f) => filter_of(pair_views(pairs@)) == Some(f@),
                Err(e) => e == JobError::ValidationError && filter_of(pair_views(pairs@)) is None,
            },
    {
        let process_id = match single_value(pairs, "processID") {
            Ok(p) => p,
            Err(e) => {
                return Err(e);
            },
        };
        let status = match single_value(pairs, "status") {
            Ok(None) => None,
            Ok(Some(text)) => match JobStatus::from_label(text.as_str()) {
                Some(s) => Some(s),
                None => {
                    return Err(JobError::ValidationError);
                },
            },
            Err(e) => {
                return Err(e);
            },
        };
        Ok(JobFilter { process_id, status })
    }

    /// The filter that every record passes.
    pub fn any() -> (r: JobFilter)
        ensures
            r@ == (JobFilterModel { process_id: None, status: None }),
    {
        JobFilter { process_id: None, status: None }
    }

    pub fn passes(&self, job: &Job) -> (r: bool)
        ensures
            r == self@.admits(job@),
    {
        let process_ok = match &self.process_id {
            Some(p) => *job.process_id() == *p,
            None => true,
        };
        let status_ok = match self.status {
            Some(s) => job.status() == s,
            None => true,
        };
        process_ok && status_ok
    }
}

/// One page of a listing together with the size of the whole listing.
#[derive(Debug)]
pub struct JobPage<'a> {
    pub jobs: Vec<&'a Job>,
    pub total: u64,
}

pub open spec fn ref_views(jobs: Seq<&Job>) -> StoreModel {
    jobs.map_values(|j: &Job| j@)
}

pub open spec fn job_views(jobs: Seq<Job>) -> StoreModel {
    jobs.map_values(|j: Job| j@)
}

/// The job store.
#[derive(Debug)]
pub struct JobStore {
    jobs: Vec<Job>,
}

impl View for JobStore {
    type V = StoreModel;

    closed spec fn view(&self) -> StoreModel {
        job_views(self.jobs@)
    }
}

proof fn position_is_unique(s: StoreModel, id: Seq<char>, i: int)
    requires
        store_inv(s),
        0 <= i < s.len(),
        s[i].id == id,
    ensures
        holds(s, id),
        position(s, id) == i,
        found(s, id) == Some(s[i]),
{
}

proof fn absent_means_none(s: StoreModel, id: Seq<char>)
    requires
        forall|i: int| 0 <= i < s.len() ==> (#[trigger] s[i]).id != id,
    ensures
        !holds(s, id),
        found(s, id) is None,
{
}

/// Dismissing a job: `NotFound` for an unknown identifier; else the job is
/// moved to `dismissed` where it was still active, and its record is
/// removed in any case. The record as it was removed is handed out.
pub open spec fn dismissed(s: StoreModel, id: Seq<char>, now: i64) -> (
    StoreModel,
    Result<JobModel, JobError>,
) {
    deleted(updated(s, id, StatusSet::active_set(), JobStatus::Dismissed, None, None, now).0, id)
}

/// An update leaves the identifiers of all records in place.
proof fn update_keeps_ids(s: StoreModel, i: int, next: JobModel, id: Seq<char>)
    requires
        store_inv(s),
        0 <= i < s.len(),
        next.id == s[i].id,
        next.consistent(),
    ensures
        store_inv(s.update(i, next)),
        holds(s.update(i, next), id) == holds(s, id),
        holds(s, id) ==> position(s.update(i, next), id) == position(s, id),
{
    let t = s.update(i, next);
    assert forall|a: int, b: int| 0 <= a < t.len() && 0 <= b < t.len() && a != b implies #[trigger] t[a].id
        != #[trigger] t[b].id by {
        assert(t[a].id == s[a].id);
        assert(t[b].id == s[b].id);
    }
    assert forall|a: int| 0 <= a < t.len() implies (#[trigger] t[a]).consistent() by {
        if a != i {
            assert(t[a] == s[a]);
        }
    }
    if holds(s, id) {
        let k = position(s, id);
        assert(t[k].id == id);
        position_is_unique(t, id, k);
    }
    if holds(t, id) {
        let k = position(t, id);
        assert(s[k].id == id);
    }
}

/// Removing a record leaves a store without its identifier.
proof fn removal_forgets(s: StoreModel, i: int)
    requires
        store_inv(s),
        0 <= i < s.len(),
    ensures
        store_inv(s.remove(i)),
        !holds(s.remove(i), s[i].id),
{
    let t = s.remove(i);
    assert forall|a: int| 0 <= a < t.len() implies (#[trigger] t[a]).consistent() && t[a].id
        != s[i].id by {
        let a0 = if a < i { a } else { a + 1 };
        assert(t[a] == s[a0]);
    }
    assert forall|a: int, b: int| 0 <= a < t.len() && 0 <= b < t.len() && a != b implies #[trigger] t[a].id
        != #[trigger] t[b].id by {
        let a0 = if a < i { a } else { a + 1 };
        let b0 = if b < i { b } else { b + 1 };
        assert(t[a] == s[a0]);
        assert(t[b] == s[b0]);
    }
}

/// Every operation of the store keeps the store invariant: identifiers stay
/// unique, and every record keeps a result exactly while it is successful.
pub proof fn operations_keep_the_invariant(
    s: StoreModel,
    job: JobModel,
    id: Seq<char>,
    process_id: Seq<char>,
    from: StatusSet,
    to: JobStatus,
    message: Option<Seq<char>>,
    result: Option<Seq<char>>,
    now: i64,
)
    requires
        store_inv(s),
    ensures
        job.consistent() ==> store_inv(inserted(s, job).0),
        store_inv(created(s, id, process_id, now).0),
        store_inv(updated(s, id, from, to, message, result, now).0),
        store_inv(deleted(s, id).0),
        store_inv(dismissed(s, id, now).0),
        forall|i: int|
            0 <= i < s.len() ==> ((#[trigger] s[i]).result is Some <==> s[i].status
                == JobStatus::Successful),
{
    if job.consistent() && !holds(s, job.id) {
        let t = s.push(job);
        assert forall|a: int, b: int| 0 <= a < t.len() && 0 <= b < t.len() && a != b implies #[trigger] t[a].id
            != #[trigger] t[b].id by {
            if a < s.len() {
                assert(t[a] == s[a]);
            }
            if b < s.len() {
                assert(t[b] == s[b]);
            }
        }
    }
    let fresh = JobModel::fresh(id, process_id, now);
    if !holds(s, id) {
        let t = s.push(fresh);
        assert forall|a: int, b: int| 0 <= a < t.len() && 0 <= b < t.len() && a != b implies #[trigger] t[a].id
            != #[trigger] t[b].id by {
            if a < s.len() {
                assert(t[a] == s[a]);
            }
            if b < s.len() {
                assert(t[b] == s[b]);
            }
        }
    }
    if holds(s, id) {
        let k = position(s, id);
        let found = s[k];
        if found.admits(from, to, result) {
            update_keeps_ids(s, k, found.moved(to, message, result, now), id);
        }
        removal_forgets(s, k);
        let active = StatusSet::active_set();
        if found.admits(active, JobStatus::Dismissed, None) {
            let next = found.moved(JobStatus::Dismissed, None, None, now);
            update_keeps_ids(s, k, next, id);
            removal_forgets(s.update(k, next), k);
        }
    }
}

/// Once a job is successful, failed or dismissed, every conditional update
/// of it fails with `InvalidTransition` and changes nothing.
pub proof fn terminal_jobs_reject_updates(
    s: StoreModel,
    id: Seq<char>,
    from: StatusSet,
    to: JobStatus,
    message: Option<Seq<char>>,
    result: Option<Seq<char>>,
    now: i64,
)
    requires
        store_inv(s),
        found(s, id) matches Some(job) && job.status.terminal(),
    ensures
        updated(s, id, from, to, message, result, now) == (
            s,
            Err::<JobModel, JobError>(JobError::InvalidTransition),
        ),
{
}

/// Of two conditional updates that each end a job, the one that comes
/// first wins and the other fails with `InvalidTransition`, leaving the
/// winner's record as it is.
pub proof fn first_terminal_update_wins(
    s: StoreModel,
    id: Seq<char>,
    from1: StatusSet,
    to1: JobStatus,
    message1: Option<Seq<char>>,
    result1: Option<Seq<char>>,
    now1: i64,
    from2: StatusSet,
    to2: JobStatus,
    message2: Option<Seq<char>>,
    result2: Option<Seq<char>>,
    now2: i64,
)
    requires
        store_inv(s),
        to1.terminal(),
        updated(s, id, from1, to1, message1, result1, now1).1 is Ok,
    ensures
        ({
            let first = updated(s, id, from1, to1, message1, result1, now1);
            updated(first.0, id, from2, to2, message2, result2, now2) == (
                first.0,
                Err::<JobModel, JobError>(JobError::InvalidTransition),
            )
        }),
{
    let k = position(s, id);
    let job = s[k];
    let next = job.moved(to1, message1, result1, now1);
    update_keeps_ids(s, k, next, id);
    let t = s.update(k, next);
    position_is_unique(t, id, k);
}

/// A dismissal and a worker's update of the same job, in either order, end
/// with the record removed and the same store: the update that comes after
/// the dismissal fails with `NotFound` and brings nothing back, and the
/// dismissal that comes after the update removes the updated record.
pub proof fn dismissal_and_update_end_alike(
    s: StoreModel,
    id: Seq<char>,
    from: StatusSet,
    to: JobStatus,
    message: Option<Seq<char>>,
    result: Option<Seq<char>>,
    now: i64,
    dismissed_at: i64,
)
    requires
        store_inv(s),
        holds(s, id),
    ensures
        ({
            let gone = dismissed(s, id, dismissed_at);
            let late = updated(gone.0, id, from, to, message, result, now);
            let early = updated(s, id, from, to, message, result, now);
            let then_gone = dismissed(early.0, id, dismissed_at);
            &&& gone.1 is Ok
            &&& !holds(gone.0, id)
            &&& late == (gone.0, Err::<JobModel, JobError>(JobError::NotFound))
            &&& then_gone.1 is Ok
            &&& then_gone.0 == gone.0
            &&& gone.0 == s.remove(position(s, id))
        }),
{
    let k = position(s, id);
    let job = s[k];
    let active = StatusSet::active_set();
    removal_forgets(s, k);
    // the dismissal alone
    if job.admits(active, JobStatus::Dismissed, None) {
        let d = job.moved(JobStatus::Dismissed, None, None, dismissed_at);
        update_keeps_ids(s, k, d, id);
        position_is_unique(s.update(k, d), id, k);
        assert(s.update(k, d).remove(k) =~= s.remove(k));
    }
    // the update first, the dismissal after it
    if job.admits(from, to, result) {
        let u = job.moved(to, message, result, now);
        update_keeps_ids(s, k, u, id);
        let t = s.update(k, u);
        position_is_unique(t, id, k);
        if u.admits(active, JobStatus::Dismissed, None) {
            let d = u.moved(JobStatus::Dismissed, None, None, dismissed_at);
            update_keeps_ids(t, k, d, id);
            position_is_unique(t.update(k, d), id, k);
            assert(t.update(k, d).remove(k) =~= s.remove(k));
        }
        assert(t.remove(k) =~= s.remove(k));
    }
}

/// A dismissal succeeds exactly where the record exists.
pub proof fn dismissal_succeeds_where_found(s: StoreModel, id: Seq<char>, now: i64)
    requires
        store_inv(s),
    ensures
        dismissed(s, id, now).1 is Ok <==> holds(s, id),
        !holds(s, id) ==> dismissed(s, id, now) == (
            s,
            Err::<JobModel, JobError>(JobError::NotFound),
        ),
{
    if holds(s, id) {
        let k = position(s, id);
        let job = s[k];
        if job.admits(StatusSet::active_set(), JobStatus::Dismissed, None) {
            let d = job.moved(JobStatus::Dismissed, None, None, now);
            update_keeps_ids(s, k, d, id);
        }
    }
}

/// Deleting is final: a second deletion of the same identifier finds nothing.
pub proof fn deleted_records_are_gone(s: StoreModel, id: Seq<char>)
    requires
        store_inv(s),
    ensures
        !holds(deleted(s, id).0, id),
        deleted(deleted(s, id).0, id) == (
            deleted(s, id).0,
            Err::<JobModel, JobError>(JobError::NotFound),
        ),
{
    if holds(s, id) {
        removal_forgets(s, position(s, id));
    }
}

/// A listing page never holds more than `limit` records, holds exactly
/// `limit` of them while a next page exists, and a window that starts at or
/// beyond the end is empty.
pub proof fn page_sizes(s: StoreModel, filter: JobFilterModel, page: Page)
    ensures
        ({
            let all = selected(s, filter);
            let shown = window_of(all, page);
            &&& shown.len() <= page.limit
            &&& shown.len() <= all.len() <= s.len()
            &&& all.len() <= u64::MAX && page.has_next(all.len() as u64) ==> shown.len()
                == page.limit
            &&& page.offset >= all.len() ==> shown.len() == 0
            &&& forall|i: int|
                0 <= i < shown.len() ==> #[trigger] shown[i] == all[page.offset + i]
                    && filter.admits(shown[i])
        }),
{
    let all = selected(s, filter);
    let shown = window_of(all, page);
    s.lemma_filter_len(filter.test());
    assert forall|i: int| 0 <= i < shown.len() implies #[trigger] shown[i] == all[page.offset + i]
        && filter.admits(shown[i]) by {
        s.lemma_filter_pred(filter.test(), page.offset + i);
    }
}

impl JobStore {
    #[verifier::type_invariant]
    pub open spec fn sound(self) -> bool {
        store_inv(self@)
    }

    /// An empty store.
    pub fn new() -> (r: JobStore)
        ensures
            r@ == StoreModel::empty(),
    {
        let r = JobStore { jobs: Vec::new() };
        assert(r@ =~= StoreModel::empty());
        r
    }

    /// The number of records.
    pub fn len(&self) -> (r: usize)
        ensures
            r == self@.len(),
    {
        self.jobs.len()
    }

    fn index_of(&self, id: &String) -> (r: Option<usize>)
        ensures
            store_inv(self@),
            self@.len() == self.jobs@.len(),
            match r {
                Some(i) => i < self@.len() && self@[i as int].id == id@ && holds(self@, id@)
                    && position(self@, id@) == i && self.jobs@[i as int]@ == self@[i as int],
                None => !holds(self@, id@),
            },
    {
        proof {
            use_type_invariant(self);
        }
        let mut i: usize = 0;
        while i < self.jobs.len()
            invariant
                i <= self.jobs.len(),
                store_inv(self@),
                self@ == job_views(self.jobs@),
                forall|k: int| 0 <= k < i ==> (#[trigger] self@[k]).id != id@,
            decreases self.jobs.len() - i,
        {
            if *self.jobs[i].id() == *id {
                proof {
                    position_is_unique(self@, id@, i as int);
                }
                return Some(i);
            }
            i += 1;
        }
        proof {
            absent_means_none(self@, id@);
        }
        None
    }

    /// Whether a record with the identifier exists.
    pub fn contains(&self, id: &str) -> (r: bool)
        ensures
            r == holds(self@, id@),
    {
        let key = String::from_str(id);
        self.index_of(&key).is_some()
    }

    /// Adds a record; `Conflict` where its identifier is taken.
    pub fn insert(&mut self, job: Job) -> (r: Result<(), JobError>)
        ensures
            final(self)@ == inserted(old(self)@, job@).0,
            match r {
                Ok(_) => inserted(old(self)@, job@).1 is Ok,
                Err(e) => inserted(old(self)@, job@).1 == Err::<JobModel, JobError>(e),
            },
    {
        proof {
            use_type_invariant(&*self);
            use_type_invariant(&job);
        }
        if self.index_of(job.id()).is_some() {
            return Err(JobError::Conflict);
        }
        let ghost before = self@;
        let ghost model = job@;
        let mut jobs: Vec<Job> = Vec::new();
        assert(job_views(jobs@) =~= StoreModel::empty());
        core::mem::swap(&mut jobs, &mut self.jobs);
        jobs.push(job);
        proof {
            let after = job_views(jobs@);
            assert(after =~= before.push(model));
            assert forall|i: int, j: int|
                0 <= i < after.len() && 0 <= j < after.len() && i != j implies #[trigger] after[i].id
                != #[trigger] after[j].id by {
                if i < before.len() {
                    assert(after[i] == before[i]);
                }
                if j < before.len() {
                    assert(after[j] == before[j]);
                }
            }
        }
        core::mem::swap(&mut jobs, &mut self.jobs);
        Ok(())
    }
    /// Creates a job in status `accepted`; `Conflict` where the identifier
    /// is taken.
    pub fn create(&mut self, id: String, process_id: String, now: i64) -> (r: Result<Job, JobError>)
        ensures
            final(self)@ == created(old(self)@, id@, process_id@, now).0,
            match r {
                Ok(job) => created(old(self)@, id@, process_id@, now).1 == Ok::<JobModel, JobError>(
                    job@,
                ),
                Err(e) => created(old(self)@, id@, process_id@, now).1 == Err::<JobModel, JobError>(
                    e,
                ),
            },
    {
        let job = Job::accepted(id, process_id, now);
        let copy = job.clone();
        match self.insert(job) {
            Ok(_) => Ok(copy),
            Err(e) => Err(e),
        }
    }

    /// The record with the identifier; `NotFound` where there is none.
    pub fn get(&self, id: &str) -> (r: Result<&Job, JobError>)
        ensures
            match r {
                Ok(job) => found(self@, id@) == Some(job@),
                Err(e) => e == JobError::NotFound && found(self@, id@) is None,
            },
    {
        let key = String::from_str(id);
        match self.index_of(&key) {
            Some(i) => Ok(&self.jobs[i]),
            None => Err(JobError::NotFound),
        }
    }

    /// The conditional update of a job's status, in one step: it succeeds
    /// only where the job's status is in `from`, `to` can be reached from
    /// it, and a result comes with `successful` and with no other target.
    pub fn update_status(
        &mut self,
        id: &str,
        from: StatusSet,
        to: JobStatus,
        message: Option<String>,
        result: Option<String>,
        now: i64,
    ) -> (r: Result<Job, JobError>)
        ensures
            final(self)@ == updated(
                old(self)@,
                id@,
                from,
                to,
                text_view(message),
                text_view(result),
                now,
            ).0,
            match r {
                Ok(job) => updated(
                    old(self)@,
                    id@,
                    from,
                    to,
                    text_view(message),
                    text_view(result),
                    now,
                ).1 == Ok::<JobModel, JobError>(job@),
                Err(e) => updated(
                    old(self)@,
                    id@,
                    from,
                    to,
                    text_view(message),
                    text_view(result),
                    now,
                ).1 == Err::<JobModel, JobError>(e),
            },
    {
        let key = String::from_str(id);
        let i = match self.index_of(&key) {
            Some(i) => i,
            None => {
                return Err(JobError::NotFound);
            },
        };
        let next = match self.jobs[i].transition(from, to, message, result, now) {
            Ok(next) => next,
            Err(e) => {
                return Err(e);
            },
        };
        let copy = next.clone();
        let ghost before = self@;
        let mut jobs: Vec<Job> = Vec::new();
        assert(job_views(jobs@) =~= StoreModel::empty());
        core::mem::swap(&mut jobs, &mut self.jobs);
        proof {
            use_type_invariant(&next);
        }
        jobs.set(i, next);
        proof {
            let after = job_views(jobs@);
            assert(after =~= before.update(i as int, copy@));
            assert forall|a: int, b: int|
                0 <= a < after.len() && 0 <= b < after.len() && a != b implies #[trigger] after[a].id
                != #[trigger] after[b].id by {
                assert(after[a].id == before[a].id);
                assert(after[b].id == before[b].id);
            }
            assert forall|a: int| 0 <= a < after.len() implies (#[trigger] after[a]).consistent() by {
                if a != i {
                    assert(after[a] == before[a]);
                }
            }
        }
        core::mem::swap(&mut jobs, &mut self.jobs);
        Ok(copy)
    }

    /// Removes the record with the identifier, whatever its status, and
    /// hands it out; `NotFound` where there is none.
    pub fn delete(&mut self, id: &str) -> (r: Result<Job, JobError>)
        ensures
            final(self)@ == deleted(old(self)@, id@).0,
            match r {
                Ok(job) => deleted(old(self)@, id@).1 == Ok::<JobModel, JobError>(job@),
                Err(e) => deleted(old(self)@, id@).1 == Err::<JobModel, JobError>(e),
            },
    {
        let key = String::from_str(id);
        let i = match self.index_of(&key) {
            Some(i) => i,
            None => {
                return Err(JobError::NotFound);
            },
        };
        let ghost before = self@;
        let mut jobs: Vec<Job> = Vec::new();
        assert(job_views(jobs@) =~= StoreModel::empty());
        core::mem::swap(&mut jobs, &mut self.jobs);
        let gone = jobs.remove(i);
        proof {
            let after = job_views(jobs@);
            assert(after =~= before.remove(i as int));
            assert forall|a: int, b: int|
                0 <= a < after.len() && 0 <= b < after.len() && a != b implies #[trigger] after[a].id
                != #[trigger] after[b].id by {
                let a0 = if a < i { a } else { a + 1 };
                let b0 = if b < i { b } else { b + 1 };
                assert(after[a] == before[a0]);
                assert(after[b] == before[b0]);
            }
            assert forall|a: int| 0 <= a < after.len() implies (#[trigger] after[a]).consistent() by {
                let a0 = if a < i { a } else { a + 1 };
                assert(after[a] == before[a0]);
            }
        }
        core::mem::swap(&mut jobs, &mut self.jobs);
        Ok(gone)
    }

    /// Dismisses a job: moves it to `dismissed` where it is still active,
    /// and removes its record whatever its status. The record as it was
    /// removed is handed out; `NotFound` where there is none.
    pub fn dismiss(&mut self, id: &str, now: i64) -> (r: Result<Job, JobError>)
        ensures
            final(self)@ == dismissed(old(self)@, id@, now).0,
            match r {
                Ok(job) => dismissed(old(self)@, id@, now).1 == Ok::<JobModel, JobError>(job@),
                Err(e) => dismissed(old(self)@, id@, now).1 == Err::<JobModel, JobError>(e),
            },
    {
        let _ = self.update_status(id, StatusSet::active(), JobStatus::Dismissed, None, None, now);
        self.delete(id)
    }

    /// One page of the records that pass the filter, oldest first, and the
    /// number of all records that pass it.
    pub fn list(&self, filter: &JobFilter, page: Page) -> (r: JobPage<'_>)
        ensures
            ref_views(r.jobs@) == window_of(selected(self@, filter@), page),
            r.total == selected(self@, filter@).len(),
    {
        let mut out: Vec<&Job> = Vec::new();
        let mut seen: u64 = 0;
        let mut i: usize = 0;
        let ghost all = self@;
        proof {
            reveal(Seq::filter);
            assert(all.take(0) =~= StoreModel::empty());
            assert(ref_views(out@) =~= window_of(selected(all.take(0), filter@), page));
        }
        while i < self.jobs.len()
            invariant
                i <= self.jobs.len(),
                all == self@,
                all == job_views(self.jobs@),
                seen == selected(all.take(i as int), filter@).len(),
                seen <= i,
                ref_views(out@) == window_of(selected(all.take(i as int), filter@), page),
            decreases self.jobs.len() - i,
        {
            let job = &self.jobs[i];
            let ghost before = selected(all.take(i as int), filter@);
            let ghost after = selected(all.take(i + 1), filter@);
            proof {
                reveal(Seq::filter);
                assert(all.take(i + 1).drop_last() =~= all.take(i as int));
                assert(all.take(i + 1).last() == job@);
            }
            if filter.passes(job) {
                assert(after == before.push(job@));
                if seen >= page.offset && seen - page.offset < page.limit {
                    let ghost kept = out@;
                    out.push(job);
                    proof {
                        assert(ref_views(out@) =~= ref_views(kept).push(job@));
                        assert(window_of(after, page) =~= window_of(before, page).push(job@));
                    }
                } else {
                    assert(window_of(after, page) =~= window_of(before, page));
                }
                seen += 1;
            } else {
                assert(after == before);
            }
            i += 1;
        }
        proof {
            assert(all.take(i as int) =~= all);
        }
        JobPage { jobs: out, total: seen }
    }
}

} // verus!
