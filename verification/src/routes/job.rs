//! Request handlers for the job resource.

use vstd::prelude::*;
use crate::db::job as job_db;
use crate::db::job::{spec_has_job, spec_lookup_job, spec_new_job, spec_remove_job, spec_replace_job};
use crate::models::job::{Job, JobCreateRequest, JobUpdateRequest};
use crate::models::JobStore;
use crate::utils::{
    effective_limit, effective_offset, page_number, spec_effective_limit, spec_effective_offset,
    spec_page, ErrorResponse, PaginationJob,
};

verus! {

/// Pagination query parameters of a job list request.
#[derive(Clone, Copy, Debug)]
pub struct JobQuery {
    /// Maximum number of items to return; defaults when absent or not
    /// positive.
    pub limit: Option<i64>,
    /// Offset into the table; defaults to the start when absent.
    pub offset: Option<i64>,
}

/// The record a partial update turns `existing` into: present fields of
/// the request overwrite, absent ones keep their stored value; the id,
/// `employer_id` and `posted_at` never change, and `updated_at` is always
/// refreshed, even by an empty request.
pub open spec fn spec_merged_job(existing: Job, req: JobUpdateRequest, now: i64) -> Job {
    Job {
        id: existing.id,
        employer_id: existing.employer_id,
        title: (match req.title {
            Some(t) => t,
            None => existing.title,
        }),
        description: (match req.description {
            Some(d) => d,
            None => existing.description,
        }),
        location: (match req.location {
            Some(l) => l,
            None => existing.location,
        }),
        salary: (match req.salary {
            Some(s) => Some(s),
            None => existing.salary,
        }),
        employment_type: (match req.employment_type {
            Some(t) => t,
            None => existing.employment_type,
        }),
        posted_at: existing.posted_at,
        updated_at: now,
    }
}

/// An empty partial update leaves every mutable field of a job unchanged,
/// yet still refreshes `updated_at` — every update call bumps it, whether
/// or not any field changed.
pub proof fn lemma_job_empty_update(existing: Job, req: JobUpdateRequest, now: i64)
    requires
        req.title is None,
        req.description is None,
        req.location is None,
        req.salary is None,
        req.employment_type is None,
    ensures
        (spec_merged_job(existing, req, now) == Job {
            id: existing.id,
            employer_id: existing.employer_id,
            title: existing.title,
            description: existing.description,
            location: existing.location,
            salary: existing.salary,
            employment_type: existing.employment_type,
            posted_at: existing.posted_at,
            updated_at: now,
        }),
{
}

/// Merge a partial update into an existing record.
pub fn merge_job(existing: Job, req: &JobUpdateRequest, now: i64) -> (r: Job)
    ensures
        r == spec_merged_job(existing, *req, now),
{
    Job {
        id: existing.id,
        employer_id: existing.employer_id,
        title: (match &req.title {
            Some(t) => t.clone(),
            None => existing.title,
        }),
        description: (match &req.description {
            Some(d) => d.clone(),
            None => existing.description,
        }),
        location: (match &req.location {
            Some(l) => l.clone(),
            None => existing.location,
        }),
        salary: (match &req.salary {
            Some(s) => Some(s.clone()),
            None => existing.salary,
        }),
        employment_type: (match req.employment_type {
            Some(t) => t,
            None => existing.employment_type,
        }),
        posted_at: existing.posted_at,
        updated_at: now,
    }
}

/// List jobs with pagination: `limit` defaults to 10 (also when 0 or
/// negative, so the page arithmetic never divides by zero) and `offset`
/// to 0.
pub fn get_jobs(store: &JobStore, query: &JobQuery) -> (r: PaginationJob)
    requires
        store.wf(),
    ensures
        r.page == spec_effective_offset(query.offset) / spec_effective_limit(query.limit) + 1,
        r.count == store@.len(),
        r.items@ == spec_page(
            store@,
            spec_effective_limit(query.limit) as int,
            spec_effective_offset(query.offset) as int,
        ),
        r.items@.len() <= spec_effective_limit(query.limit),
{
    let limit = effective_limit(query.limit);
    let offset = effective_offset(query.offset);
    let count = job_db::get_total_count(store);
    let items = job_db::get_all(store, limit, offset);
    let page = page_number(limit, offset);
    PaginationJob { page, count, items }
}

/// Fetch one job; absence is reported as `NotFound`, not a crash.
pub fn get_job_by_id(store: &JobStore, id: i64) -> (r: Result<Job, ErrorResponse>)
    requires
        store.wf(),
    ensures
        (match r {
            Ok(j) => spec_lookup_job(store@, id) == Some(j),
            Err(e) => spec_lookup_job(store@, id) is None && (e matches ErrorResponse::NotFound(m)
                && m@ == "job not found"@),
        }),
{
    match job_db::get_by_id(store, id) {
        Some(j) => Ok(j),
        None => Err(ErrorResponse::NotFound("job not found".to_owned())),
    }
}

/// Create a job from the decoded payload; the server assigns the id and
/// sets both timestamps to `now`.
pub fn create_job(store: &mut JobStore, job: JobCreateRequest, now: i64) -> (r: Result<
    Job,
    ErrorResponse,
>)
    requires
        old(store).wf(),
    ensures
        final(store).wf(),
        (match r {
            Ok(j) => {
                &&& old(store).next_id < i64::MAX
                &&& j == spec_new_job(job, old(store).next_id, now)
                &&& final(store)@ == old(store)@.push(j)
                &&& final(store).next_id == old(store).next_id + 1
            },
            Err(e) => {
                &&& *final(store) == *old(store)
                &&& e is InternalError
                &&& old(store).next_id == i64::MAX
            },
        }),
{
    match job_db::create(store, job, now) {
        Ok(j) => Ok(j),
        Err(_) => Err(ErrorResponse::InternalError("store has no id left".to_owned())),
    }
}

/// Update a job: load the record (`NotFound` when absent), merge the
/// partial request over it in the handler (keeping `posted_at`, always
/// refreshing `updated_at`), persist, and return the merged record.
pub fn update_job(store: &mut JobStore, id: i64, req: &JobUpdateRequest, now: i64) -> (r: Result<
    Job,
    ErrorResponse,
>)
    requires
        old(store).wf(),
    ensures
        final(store).wf(),
        final(store).next_id == old(store).next_id,
        (match r {
            Ok(j) => {
                &&& spec_has_job(old(store)@, id)
                &&& j == spec_merged_job(spec_lookup_job(old(store)@, id).unwrap(), *req, now)
                &&& final(store)@ == spec_replace_job(old(store)@, id, j)
            },
            Err(e) => {
                &&& *final(store) == *old(store)
                &&& e is NotFound
                &&& !spec_has_job(old(store)@, id)
            },
        }),
{
    let existing = match job_db::get_by_id(store, id) {
        Some(j) => j,
        None => {
            return Err(ErrorResponse::NotFound("job not found".to_owned()));
        },
    };
    let merged = merge_job(existing, req, now);
    job_db::update(store, id, merged.clone());
    Ok(merged)
}

/// Delete a job unconditionally; deleting an absent id succeeds.
pub fn delete_job(store: &mut JobStore, id: i64)
    requires
        old(store).wf(),
    ensures
        final(store).wf(),
        final(store).next_id == old(store).next_id,
        final(store)@ == spec_remove_job(old(store)@, id),
{
    job_db::delete(store, id);
}

} // verus!
