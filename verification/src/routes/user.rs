//! Request handlers for the user resource: they validate inputs, call the
//! repository, compute partial-update merges, and shape the response
//! envelope. The transport layer supplies decoded inputs and the current
//! time, and maps each `ErrorResponse` to its status code.

use vstd::prelude::*;
use crate::db::user_db;
use crate::db::user_db::{
    spec_email_taken, spec_email_taken_by_other, spec_has_user, spec_lookup_user, spec_new_user,
    spec_remove_user, spec_replace_user,
};
use crate::db::RepoError;
use crate::models::user::{User, UserUpdateRequest};
use crate::models::UserStore;
use crate::utils::{
    effective_limit, effective_offset, page_number, spec_effective_limit, spec_effective_offset,
    spec_page, ErrorResponse, PaginationUser,
};

verus! {

/// Pagination query parameters of a user list request.
#[derive(Clone, Copy, Debug)]
pub struct UserQuery {
    /// Maximum number of items to return; defaults when absent or not
    /// positive.
    pub limit: Option<i64>,
    /// Offset into the table; defaults to the start when absent.
    pub offset: Option<i64>,
}

/// The record a partial update turns `existing` into: present fields of
/// the request overwrite, absent ones keep their stored value; the id and
/// `created_at` never change, and `updated_at` is always refreshed.
pub open spec fn spec_merged_user(existing: User, req: UserUpdateRequest, now: i64) -> User {
    User {
        id: existing.id,
        name: (match req.name {
            Some(n) => n,
            None => existing.name,
        }),
        email: (match req.email {
            Some(e) => e,
            None => existing.email,
        }),
        password: (match req.password {
            Some(p) => p,
            None => existing.password,
        }),
        role: (match req.role {
            Some(r) => r,
            None => existing.role,
        }),
        created_at: existing.created_at,
        updated_at: now,
    }
}

/// An empty partial update leaves every mutable field of a user unchanged;
/// only `updated_at` is refreshed.
pub proof fn lemma_user_empty_update(existing: User, req: UserUpdateRequest, now: i64)
    requires
        req.name is None,
        req.email is None,
        req.password is None,
        req.role is None,
    ensures
        (spec_merged_user(existing, req, now) == User {
            id: existing.id,
            name: existing.name,
            email: existing.email,
            password: existing.password,
            role: existing.role,
            created_at: existing.created_at,
            updated_at: now,
        }),
{
}

/// Merge a partial update into an existing record.
pub fn merge_user(existing: User, req: &UserUpdateRequest, now: i64) -> (r: User)
    ensures
        r == spec_merged_user(existing, *req, now),
{
    User {
        id: existing.id,
        name: (match &req.name {
            Some(n) => n.clone(),
            None => existing.name,
        }),
        email: (match &req.email {
            Some(e) => e.clone(),
            None => existing.email,
        }),
        password: (match &req.password {
            Some(p) => p.clone(),
            None => existing.password,
        }),
        role: (match req.role {
            Some(r) => r,
            None => existing.role,
        }),
        created_at: existing.created_at,
        updated_at: now,
    }
}

/// List users with pagination: `limit` defaults to 10 (also when 0 or
/// negative, so the page arithmetic never divides by zero) and `offset`
/// to 0.
pub fn get_users(store: &UserStore, query: &UserQuery) -> (r: PaginationUser)
    requires
        store.wf(),
    ensures
        r.page == spec_effective_offset(query.offset) / spec_effective_limit(query.limit) + 1,
        r.count == store@.len(),
        r.items@ == spec_page(
            store@,
            spec_effective_limit(query.limit) as int,
            spec_effective_offset(query.offset) as int,
        ),
        r.items@.len() <= spec_effective_limit(query.limit),
{
    let limit = effective_limit(query.limit);
    let offset = effective_offset(query.offset);
    let count = user_db::get_total_count(store);
    let items = user_db::get_all(store, limit, offset);
    let page = page_number(limit, offset);
    PaginationUser { page, count, items }
}

/// Fetch one user; absence is reported as `NotFound`, not a crash.
pub fn get_user_by_id(store: &UserStore, id: i64) -> (r: Result<User, ErrorResponse>)
    requires
        store.wf(),
    ensures
        (match r {
            Ok(u) => spec_lookup_user(store@, id) == Some(u),
            Err(e) => spec_lookup_user(store@, id) is None && (e matches ErrorResponse::NotFound(
                m,
            ) && m@ == "user not found"@),
        }),
{
    match user_db::get_by_id(store, id) {
        Some(u) => Ok(u),
        None => Err(ErrorResponse::NotFound("user not found".to_owned())),
    }
}

/// Create a user from the decoded payload: a missing required field is a
/// `BadRequest`, a duplicate email a `Conflict`; on success the created
/// record is returned, with its server-assigned id and timestamps.
pub fn create_user(store: &mut UserStore, user: UserUpdateRequest, now: i64) -> (r: Result<
    User,
    ErrorResponse,
>)
    requires
        old(store).wf(),
    ensures
        final(store).wf(),
        (match r {
            Ok(u) => {
                &&& user.name is Some && user.email is Some && user.password is Some
                &&& !spec_email_taken(old(store)@, user.email.unwrap()@)
                &&& old(store).next_id < i64::MAX
                &&& u == spec_new_user(user, old(store).next_id, now)
                &&& final(store)@ == old(store)@.push(u)
                &&& final(store).next_id == old(store).next_id + 1
            },
            Err(e) => {
                &&& *final(store) == *old(store)
                &&& (match e {
                    ErrorResponse::BadRequest(_) => user.name is None || user.email is None
                        || user.password is None,
                    ErrorResponse::Conflict(_) => user.name is Some && user.email is Some
                        && user.password is Some && spec_email_taken(
                        old(store)@,
                        user.email.unwrap()@,
                    ),
                    ErrorResponse::InternalError(_) => user.name is Some && user.email is Some
                        && user.password is Some && !spec_email_taken(
                        old(store)@,
                        user.email.unwrap()@,
                    ) && old(store).next_id == i64::MAX,
                    _ => false,
                })
            },
        }),
{
    match user_db::create(store, user, now) {
        Ok(u) => Ok(u),
        Err(RepoError::MissingField) => Err(
            ErrorResponse::BadRequest("missing required user field".to_owned()),
        ),
        Err(RepoError::DuplicateEmail) => Err(
            ErrorResponse::Conflict("email already in use".to_owned()),
        ),
        Err(RepoError::CapacityExhausted) => Err(
            ErrorResponse::InternalError("store has no id left".to_owned()),
        ),
    }
}

/// Update a user: load the record (`NotFound` when absent), merge the
/// partial request over it in the handler, persist, and return the merged
/// record. A merge onto another row's email is a `Conflict`.
pub fn update_user(store: &mut UserStore, id: i64, req: &UserUpdateRequest, now: i64) -> (r: Result<
    User,
    ErrorResponse,
>)
    requires
        old(store).wf(),
    ensures
        final(store).wf(),
        final(store).next_id == old(store).next_id,
        (match r {
            Ok(u) => {
                &&& spec_has_user(old(store)@, id)
                &&& u == spec_merged_user(spec_lookup_user(old(store)@, id).unwrap(), *req, now)
                &&& !spec_email_taken_by_other(old(store)@, u.email@, id)
                &&& final(store)@ == spec_replace_user(old(store)@, id, u)
            },
            Err(e) => {
                &&& *final(store) == *old(store)
                &&& (match e {
                    ErrorResponse::NotFound(_) => !spec_has_user(old(store)@, id),
                    ErrorResponse::Conflict(_) => spec_has_user(old(store)@, id)
                        && spec_email_taken_by_other(
                        old(store)@,
                        spec_merged_user(
                            spec_lookup_user(old(store)@, id).unwrap(),
                            *req,
                            now,
                        ).email@,
                        id,
                    ),
                    _ => false,
                })
            },
        }),
{
    let existing = match user_db::get_by_id(store, id) {
        Some(u) => u,
        None => {
            return Err(ErrorResponse::NotFound("user not found".to_owned()));
        },
    };
    let merged = merge_user(existing, req, now);
    match user_db::update(store, id, merged.clone()) {
        Ok(_) => Ok(merged),
        Err(_) => Err(ErrorResponse::Conflict("email already in use".to_owned())),
    }
}

/// Delete a user unconditionally; deleting an absent id succeeds.
pub fn delete_user(store: &mut UserStore, id: i64)
    requires
        old(store).wf(),
    ensures
        final(store).wf(),
        final(store).next_id == old(store).next_id,
        final(store)@ == spec_remove_user(old(store)@, id),
{
    user_db::delete(store, id);
}

} // verus!
