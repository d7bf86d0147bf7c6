//! Request handlers for the application resource.

use vstd::prelude::*;
use crate::db::application_db;
use crate::db::application_db::{
    spec_has_application, spec_lookup_application, spec_new_application, spec_remove_application,
    spec_replace_application,
};
use crate::models::application::{Application, ApplicationCreateRequest, ApplicationUpdateRequest};
use crate::models::ApplicationStore;
use crate::utils::{
    effective_limit, effective_offset, page_number, spec_effective_limit, spec_effective_offset,
    spec_page, ErrorResponse, PaginationApplication,
};

verus! {

/// Pagination query parameters of an application list request.
#[derive(Clone, Copy, Debug)]
pub struct ApplicationQuery {
    /// Maximum number of items to return; defaults when absent or not
    /// positive.
    pub limit: Option<i64>,
    /// Offset into the table; defaults to the start when absent.
    pub offset: Option<i64>,
}

/// The record a partial update turns `existing` into, over the mutable
/// fields only (cover letter, resume, status): present fields of the
/// request overwrite, absent ones keep their stored value; the id, both
/// foreign keys and `applied_at` never change.
pub open spec fn spec_merged_application(
    existing: Application,
    req: ApplicationUpdateRequest,
) -> Application {
    Application {
        id: existing.id,
        job_seeker_id: existing.job_seeker_id,
        job_id: existing.job_id,
        cover_letter: (match req.cover_letter {
            Some(c) => Some(c),
            None => existing.cover_letter,
        }),
        resume: (match req.resume {
            Some(r) => Some(r),
            None => existing.resume,
        }),
        status: (match req.status {
            Some(s) => s,
            None => existing.status,
        }),
        applied_at: existing.applied_at,
    }
}

/// An empty partial update leaves an application entirely unchanged:
/// every mutable field keeps its value, and `applied_at` is never touched.
pub proof fn lemma_application_empty_update(existing: Application, req: ApplicationUpdateRequest)
    requires
        req.cover_letter is None,
        req.resume is None,
        req.status is None,
    ensures
        spec_merged_application(existing, req) == existing,
{
}

/// Merge a partial update into an existing record.
pub fn merge_application(existing: Application, req: &ApplicationUpdateRequest) -> (r: Application)
    ensures
        r == spec_merged_application(existing, *req),
{
    Application {
        id: existing.id,
        job_seeker_id: existing.job_seeker_id,
        job_id: existing.job_id,
        cover_letter: (match &req.cover_letter {
            Some(c) => Some(c.clone()),
            None => existing.cover_letter,
        }),
        resume: (match &req.resume {
            Some(r) => Some(r.clone()),
            None => existing.resume,
        }),
        status: (match req.status {
            Some(s) => s,
            None => existing.status,
        }),
        applied_at: existing.applied_at,
    }
}

/// List applications with pagination: `limit` defaults to 10 (also when 0
/// or negative, so the page arithmetic never divides by zero) and
/// `offset` to 0.
pub fn get_applications(store: &ApplicationStore, query: &ApplicationQuery) -> (r:
    PaginationApplication)
    requires
        store.wf(),
    ensures
        r.page == spec_effective_offset(query.offset) / spec_effective_limit(query.limit) + 1,
        r.count == store@.len(),
        r.items@ == spec_page(
            store@,
            spec_effective_limit(query.limit) as int,
            spec_effective_offset(query.offset) as int,
        ),
        r.items@.len() <= spec_effective_limit(query.limit),
{
    let limit = effective_limit(query.limit);
    let offset = effective_offset(query.offset);
    let count = application_db::get_total_count(store);
    let items = application_db::get_all(store, limit, offset);
    let page = page_number(limit, offset);
    PaginationApplication { page, count, items }
}

/// Fetch one application; absence is reported as `NotFound`, not a crash.
pub fn get_application_by_id(store: &ApplicationStore, id: i64) -> (r: Result<
    Application,
    ErrorResponse,
>)
    requires
        store.wf(),
    ensures
        (match r {
            Ok(a) => spec_lookup_application(store@, id) == Some(a),
            Err(e) => spec_lookup_application(store@, id) is None && (
            e matches ErrorResponse::NotFound(m) && m@ == "application not found"@),
        }),
{
    match application_db::get_by_id(store, id) {
        Some(a) => Ok(a),
        None => Err(ErrorResponse::NotFound("application not found".to_owned())),
    }
}

/// Create an application from the decoded payload; the server assigns the
/// id, sets `applied_at` to `now`, and defaults the status to pending.
pub fn create_application(
    store: &mut ApplicationStore,
    application: ApplicationCreateRequest,
    now: i64,
) -> (r: Result<Application, ErrorResponse>)
    requires
        old(store).wf(),
    ensures
        final(store).wf(),
        (match r {
            Ok(a) => {
                &&& old(store).next_id < i64::MAX
                &&& a == spec_new_application(application, old(store).next_id, now)
                &&& final(store)@ == old(store)@.push(a)
                &&& final(store).next_id == old(store).next_id + 1
            },
            Err(e) => {
                &&& *final(store) == *old(store)
                &&& e is InternalError
                &&& old(store).next_id == i64::MAX
            },
        }),
{
    match application_db::create(store, application, now) {
        Ok(a) => Ok(a),
        Err(_) => Err(ErrorResponse::InternalError("store has no id left".to_owned())),
    }
}

/// Update an application: load the record (`NotFound` when absent), merge
/// the partial request over its mutable fields in the handler, persist,
/// and return the merged record. `applied_at` is never changed.
pub fn update_application(
    store: &mut ApplicationStore,
    id: i64,
    req: &ApplicationUpdateRequest,
) -> (r: Result<Application, ErrorResponse>)
    requires
        old(store).wf(),
    ensures
        final(store).wf(),
        final(store).next_id == old(store).next_id,
        (match r {
            Ok(a) => {
                &&& spec_has_application(old(store)@, id)
                &&& a == spec_merged_application(
                    spec_lookup_application(old(store)@, id).unwrap(),
                    *req,
                )
                &&& final(store)@ == spec_replace_application(old(store)@, id, a)
            },
            Err(e) => {
                &&& *final(store) == *old(store)
                &&& e is NotFound
                &&& !spec_has_application(old(store)@, id)
            },
        }),
{
    let existing = match application_db::get_by_id(store, id) {
        Some(a) => a,
        None => {
            return Err(ErrorResponse::NotFound("application not found".to_owned()));
        },
    };
    let merged = merge_application(existing, req);
    application_db::update(store, id, merged.clone());
    Ok(merged)
}

/// Delete an application unconditionally; deleting an absent id succeeds.
pub fn delete_application(store: &mut ApplicationStore, id: i64)
    requires
        old(store).wf(),
    ensures
        final(store).wf(),
        final(store).next_id == old(store).next_id,
        final(store)@ == spec_remove_application(old(store)@, id),
{
    application_db::delete(store, id);
}

} // verus!
