//! Error taxonomy shared by all request handlers, and the pagination
//! arithmetic for list endpoints.

use vstd::prelude::*;
use crate::models::application::Application;
use crate::models::job::Job;
use crate::models::user::User;

verus! {

/// Pagination envelope for a user listing.
pub struct PaginationUser {
    /// 1-based page number, `offset / limit + 1`.
    pub page: i64,
    /// Total rows in the table, unfiltered.
    pub count: i64,
    /// The page of records, in stored order.
    pub items: Vec<User>,
}

/// Pagination envelope for a job listing.
pub struct PaginationJob {
    /// 1-based page number, `offset / limit + 1`.
    pub page: i64,
    /// Total rows in the table, unfiltered.
    pub count: i64,
    /// The page of records, in stored order.
    pub items: Vec<Job>,
}

/// Pagination envelope for an application listing.
pub struct PaginationApplication {
    /// 1-based page number, `offset / limit + 1`.
    pub page: i64,
    /// Total rows in the table, unfiltered.
    pub count: i64,
    /// The page of records, in stored order.
    pub items: Vec<Application>,
}

/// Error outcomes that request handlers report to the transport layer.
/// Each carries a human-readable message.
#[derive(Clone, Debug)]
pub enum ErrorResponse {
    /// The addressed resource does not exist.
    NotFound(String),
    /// The request conflicts with stored data (e.g. a duplicate email).
    Conflict(String),
    /// Missing or invalid credentials (produced only by an auth layer in
    /// front of this core).
    Unauthorized(String),
    /// An unexpected storage-level failure.
    InternalError(String),
    /// The request body or parameters are malformed.
    BadRequest(String),
    /// The operation is not allowed.
    Forbidden(String),
    /// The resource to be created already exists.
    AlreadyExists(String),
}

impl ErrorResponse {
    /// The message carried by the error, as a sequence of characters.
    pub open spec fn spec_message(&self) -> Seq<char> {
        match self {
            ErrorResponse::NotFound(m) => m@,
            ErrorResponse::Conflict(m) => m@,
            ErrorResponse::Unauthorized(m) => m@,
            ErrorResponse::InternalError(m) => m@,
            ErrorResponse::BadRequest(m) => m@,
            ErrorResponse::Forbidden(m) => m@,
            ErrorResponse::AlreadyExists(m) => m@,
        }
    }

    /// The HTTP status code conventionally paired with each error kind.
    pub open spec fn spec_status_code(&self) -> u16 {
        match self {
            ErrorResponse::NotFound(_) => 404u16,
            ErrorResponse::Conflict(_) => 409u16,
            ErrorResponse::Unauthorized(_) => 401u16,
            ErrorResponse::InternalError(_) => 500u16,
            ErrorResponse::BadRequest(_) => 400u16,
            ErrorResponse::Forbidden(_) => 403u16,
            ErrorResponse::AlreadyExists(_) => 409u16,
        }
    }

    /// The HTTP status code for this error.
    pub fn status_code(&self) -> (code: u16)
        ensures
            code == self.spec_status_code(),
    {
        match self {
            ErrorResponse::NotFound(_) => 404,
            ErrorResponse::Conflict(_) => 409,
            ErrorResponse::Unauthorized(_) => 401,
            ErrorResponse::InternalError(_) => 500,
            ErrorResponse::BadRequest(_) => 400,
            ErrorResponse::Forbidden(_) => 403,
            ErrorResponse::AlreadyExists(_) => 409,
        }
    }

    /// The human-readable message carried by the error.
    pub fn message(&self) -> (m: &String)
        ensures
            m@ == self.spec_message(),
    {
        match self {
            ErrorResponse::NotFound(m) => m,
            ErrorResponse::Conflict(m) => m,
            ErrorResponse::Unauthorized(m) => m,
            ErrorResponse::InternalError(m) => m,
            ErrorResponse::BadRequest(m) => m,
            ErrorResponse::Forbidden(m) => m,
            ErrorResponse::AlreadyExists(m) => m,
        }
    }
}

/// Limit applied to a list request that names none.
pub const DEFAULT_LIMIT: i64 = 10;

/// The limit a list endpoint actually uses: the requested one when it is
/// positive, and the default otherwise, so that the page arithmetic never
/// divides by zero.
pub open spec fn spec_effective_limit(limit: Option<i64>) -> i64 {
    match limit {
        Some(l) => if l >= 1 { l } else { DEFAULT_LIMIT },
        None => DEFAULT_LIMIT,
    }
}

/// The offset a list endpoint actually uses: the requested one clamped to
/// `[0, i64::MAX - 1]` (a negative offset reads from the start; the top
/// value is left out so that the page number fits in an `i64`).
pub open spec fn spec_effective_offset(offset: Option<i64>) -> i64 {
    match offset {
        Some(o) => if o < 0 {
            0
        } else if o == i64::MAX {
            (i64::MAX - 1) as i64
        } else {
            o
        },
        None => 0,
    }
}

/// Resolve an optional `limit` query parameter to the one used.
pub fn effective_limit(limit: Option<i64>) -> (r: i64)
    ensures
        r == spec_effective_limit(limit),
        r >= 1,
{
    match limit {
        Some(l) => if l >= 1 {
            l
        } else {
            DEFAULT_LIMIT
        },
        None => DEFAULT_LIMIT,
    }
}

/// Resolve an optional `offset` query parameter to the one used.
pub fn effective_offset(offset: Option<i64>) -> (r: i64)
    ensures
        r == spec_effective_offset(offset),
        0 <= r < i64::MAX,
{
    match offset {
        Some(o) => if o < 0 {
            0
        } else if o == i64::MAX {
            i64::MAX - 1
        } else {
            o
        },
        None => 0,
    }
}

/// What a bounded, offset-based scan of `s` yields: the records from
/// `offset` on, at most `limit` of them, in stored order.
pub open spec fn spec_page<T>(s: Seq<T>, limit: int, offset: int) -> Seq<T> {
    let lo = if offset < s.len() {
        offset
    } else {
        s.len() as int
    };
    let hi = if offset + limit < s.len() {
        offset + limit
    } else {
        s.len() as int
    };
    s.subrange(lo, hi)
}

/// Page arithmetic as the list handlers expose it: a requested `limit`
/// that is positive and a requested nonnegative `offset` (below the top
/// `i64` value, where the page number would overflow) are used verbatim,
/// so the reported page is exactly `offset / limit + 1`; an absent,
/// zero or negative `limit` falls back to the default instead of reaching
/// the division, and an absent offset reads from the start.
pub proof fn lemma_pagination_parameters(limit: i64, offset: i64)
    requires
        limit >= 1,
        0 <= offset < i64::MAX,
    ensures
        spec_effective_limit(Some(limit)) == limit,
        spec_effective_offset(Some(offset)) == offset,
        spec_effective_limit(None) == DEFAULT_LIMIT,
        spec_effective_offset(None) == 0,
        spec_effective_limit(Some(0)) == DEFAULT_LIMIT,
        forall|l: i64| #[trigger] spec_effective_limit(Some(l)) >= 1,
        forall|o: i64| 0 <= #[trigger] spec_effective_offset(Some(o)) < i64::MAX,
{
}

/// The 1-based page number reported for a bounded, offset-based scan.
pub fn page_number(limit: i64, offset: i64) -> (r: i64)
    requires
        limit >= 1,
        0 <= offset < i64::MAX,
    ensures
        r == offset / limit + 1,
{
    offset / limit + 1
}

} // verus!
