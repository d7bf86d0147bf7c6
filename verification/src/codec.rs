//! Persistence codec: the storage-row shapes of the three records with the
//! bidirectional mapping onto them, the few trusted bridges to outside code
//! (string equality, RFC 3339 timestamp text), and the error type for
//! decoding stored values.

use vstd::prelude::*;
use crate::models::application::{Application, ApplicationStatus, spec_parse_status, spec_status_str};
use crate::models::job::{EmploymentType, Job, spec_employment_str, spec_parse_employment};
use crate::models::user::{User, UserRole, spec_parse_role, spec_role_str};

verus! {

/// Failure of the persistence codec while reading a stored value.
#[derive(Clone, Copy, PartialEq, Eq, Structural, Debug)]
pub enum CodecError {
    /// A stored enum column holds a string that names no variant.
    InvalidEnumValue,
    /// A stored timestamp column is not valid RFC 3339 text.
    MalformedTimestamp,
}

/// First timestamp (in seconds since the Unix epoch) past the last instant
/// of the year 9999, the largest year RFC 3339 text can carry.
pub const RFC3339_TEXT_END: i64 = 253402300800;

/// The instant, in seconds since the Unix epoch, that a piece of text
/// denotes when read as RFC 3339, or nothing when the text is not valid
/// RFC 3339.
pub uninterp spec fn rfc3339_value(text: Seq<char>) -> Option<int>;

/// Relies on `<str as PartialEq>::eq`: two string slices are equal exactly
/// when they consist of the same characters.
#[verifier::external_body]
pub(crate) fn str_eq(a: &str, b: &str) -> (r: bool)
    ensures
        r == (a@ == b@),
{
    a == b
}

/// Relies on chrono's `DateTime::from_timestamp` and
/// `DateTime::to_rfc3339`: every second count up to the year 9999 denotes a
/// representable UTC instant, and its RFC 3339 text parses back (via
/// `parse_from_rfc3339` and `timestamp`, the documented round trip) to the
/// same second count.
#[verifier::external_body]
pub(crate) fn timestamp_to_rfc3339(secs: i64) -> (r: String)
    requires
        0 <= secs < RFC3339_TEXT_END,
    ensures
        rfc3339_value(r@) == Some(secs as int),
{
    chrono::DateTime::<chrono::Utc>::from_timestamp(secs, 0)
        .expect("second count below RFC3339_TEXT_END is in range")
        .to_rfc3339()
}

/// Relies on chrono's `DateTime::parse_from_rfc3339` and
/// `DateTime::timestamp`: reading RFC 3339 text yields the instant it
/// denotes, and fails exactly on text that is not valid RFC 3339.
#[verifier::external_body]
pub(crate) fn timestamp_from_rfc3339(s: &str) -> (r: Option<i64>)
    ensures
        (match r {
            Some(t) => rfc3339_value(s@) == Some(t as int),
            None => rfc3339_value(s@) is None,
        }),
{
    match chrono::DateTime::parse_from_rfc3339(s) {
        Ok(d) => Some(d.timestamp()),
        Err(_) => None,
    }
}

/// Whether a second count lies in the range RFC 3339 storage text covers
/// here: from the Unix epoch up to the end of the year 9999.
pub open spec fn spec_text_representable(t: i64) -> bool {
    0 <= t < RFC3339_TEXT_END
}

/// The character sequences behind an optional text column.
pub open spec fn spec_opt_text(o: Option<String>) -> Option<Seq<char>> {
    match o {
        Some(s) => Some(s@),
        None => None,
    }
}

/// A `users` table row, fields as they sit in storage.
#[derive(Clone, Debug)]
pub struct UserRow {
    pub id: i64,
    pub name: String,
    pub email: String,
    pub password: String,
    pub role: String,
    pub created_at: String,
    pub updated_at: String,
}

/// Serialize a user for storage: enum as its canonical string, timestamps
/// as RFC 3339 text. Fails only on a timestamp outside the representable
/// range.
pub fn encode_user(u: &User) -> (r: Option<UserRow>)
    ensures
        (match r {
            Some(row) => {
                &&& spec_text_representable(u.created_at)
                &&& spec_text_representable(u.updated_at)
                &&& row.id == u.id
                &&& row.name@ == u.name@
                &&& row.email@ == u.email@
                &&& row.password@ == u.password@
                &&& row.role@ == spec_role_str(u.role)
                &&& rfc3339_value(row.created_at@) == Some(u.created_at as int)
                &&& rfc3339_value(row.updated_at@) == Some(u.updated_at as int)
            },
            None => !(spec_text_representable(u.created_at)
                && spec_text_representable(u.updated_at)),
        }),
{
    if !(u.created_at >= 0 && u.created_at < RFC3339_TEXT_END) {
        return None;
    }
    if !(u.updated_at >= 0 && u.updated_at < RFC3339_TEXT_END) {
        return None;
    }
    Some(UserRow {
        id: u.id,
        name: u.name.clone(),
        email: u.email.clone(),
        password: u.password.clone(),
        role: u.role.encode(),
        created_at: timestamp_to_rfc3339(u.created_at),
        updated_at: timestamp_to_rfc3339(u.updated_at),
    })
}

/// Reconstruct a user from a stored row. Fails with `InvalidEnumValue` on
/// an unrecognized role string, else with `MalformedTimestamp` on a
/// timestamp column that is not valid RFC 3339.
pub fn decode_user(row: &UserRow) -> (r: Result<User, CodecError>)
    ensures
        (match r {
            Ok(u) => {
                &&& spec_parse_role(row.role@) == Some(u.role)
                &&& rfc3339_value(row.created_at@) == Some(u.created_at as int)
                &&& rfc3339_value(row.updated_at@) == Some(u.updated_at as int)
                &&& u.id == row.id
                &&& u.name@ == row.name@
                &&& u.email@ == row.email@
                &&& u.password@ == row.password@
            },
            Err(CodecError::InvalidEnumValue) => spec_parse_role(row.role@) is None,
            Err(CodecError::MalformedTimestamp) => spec_parse_role(row.role@) is Some
                && (rfc3339_value(row.created_at@) is None
                    || rfc3339_value(row.updated_at@) is None),
        }),
{
    let role = match UserRole::decode(row.role.as_str()) {
        Ok(v) => v,
        Err(e) => {
            return Err(e);
        },
    };
    let created_at = match timestamp_from_rfc3339(row.created_at.as_str()) {
        Some(t) => t,
        None => {
            return Err(CodecError::MalformedTimestamp);
        },
    };
    let updated_at = match timestamp_from_rfc3339(row.updated_at.as_str()) {
        Some(t) => t,
        None => {
            return Err(CodecError::MalformedTimestamp);
        },
    };
    Ok(User {
        id: row.id,
        name: row.name.clone(),
        email: row.email.clone(),
        password: row.password.clone(),
        role,
        created_at,
        updated_at,
    })
}

/// A `jobs` table row, fields as they sit in storage.
#[derive(Clone, Debug)]
pub struct JobRow {
    pub id: i64,
    pub employer_id: i64,
    pub title: String,
    pub description: String,
    pub location: String,
    pub salary: Option<String>,
    pub employment_type: String,
    pub posted_at: String,
    pub updated_at: String,
}

/// Serialize a job for storage. Fails only on a timestamp outside the
/// representable range.
pub fn encode_job(j: &Job) -> (r: Option<JobRow>)
    ensures
        (match r {
            Some(row) => {
                &&& spec_text_representable(j.posted_at)
                &&& spec_text_representable(j.updated_at)
                &&& row.id == j.id
                &&& row.employer_id == j.employer_id
                &&& row.title@ == j.title@
                &&& row.description@ == j.description@
                &&& row.location@ == j.location@
                &&& spec_opt_text(row.salary) == spec_opt_text(j.salary)
                &&& row.employment_type@ == spec_employment_str(j.employment_type)
                &&& rfc3339_value(row.posted_at@) == Some(j.posted_at as int)
                &&& rfc3339_value(row.updated_at@) == Some(j.updated_at as int)
            },
            None => !(spec_text_representable(j.posted_at)
                && spec_text_representable(j.updated_at)),
        }),
{
    if !(j.posted_at >= 0 && j.posted_at < RFC3339_TEXT_END) {
        return None;
    }
    if !(j.updated_at >= 0 && j.updated_at < RFC3339_TEXT_END) {
        return None;
    }
    Some(JobRow {
        id: j.id,
        employer_id: j.employer_id,
        title: j.title.clone(),
        description: j.description.clone(),
        location: j.location.clone(),
        salary: match &j.salary {
            Some(s) => Some(s.clone()),
            None => None,
        },
        employment_type: j.employment_type.encode(),
        posted_at: timestamp_to_rfc3339(j.posted_at),
        updated_at: timestamp_to_rfc3339(j.updated_at),
    })
}

/// Reconstruct a job from a stored row. Fails with `InvalidEnumValue` on an
/// unrecognized employment-type string, else with `MalformedTimestamp` on a
/// timestamp column that is not valid RFC 3339.
pub fn decode_job(row: &JobRow) -> (r: Result<Job, CodecError>)
    ensures
        (match r {
            Ok(j) => {
                &&& spec_parse_employment(row.employment_type@) == Some(j.employment_type)
                &&& rfc3339_value(row.posted_at@) == Some(j.posted_at as int)
                &&& rfc3339_value(row.updated_at@) == Some(j.updated_at as int)
                &&& j.id == row.id
                &&& j.employer_id == row.employer_id
                &&& j.title@ == row.title@
                &&& j.description@ == row.description@
                &&& j.location@ == row.location@
                &&& spec_opt_text(j.salary) == spec_opt_text(row.salary)
            },
            Err(CodecError::InvalidEnumValue) => spec_parse_employment(row.employment_type@) is None,
            Err(CodecError::MalformedTimestamp) => spec_parse_employment(row.employment_type@) is Some
                && (rfc3339_value(row.posted_at@) is None
                    || rfc3339_value(row.updated_at@) is None),
        }),
{
    let employment_type = match EmploymentType::decode(row.employment_type.as_str()) {
        Ok(v) => v,
        Err(e) => {
            return Err(e);
        },
    };
    let posted_at = match timestamp_from_rfc3339(row.posted_at.as_str()) {
        Some(t) => t,
        None => {
            return Err(CodecError::MalformedTimestamp);
        },
    };
    let updated_at = match timestamp_from_rfc3339(row.updated_at.as_str()) {
        Some(t) => t,
        None => {
            return Err(CodecError::MalformedTimestamp);
        },
    };
    Ok(Job {
        id: row.id,
        employer_id: row.employer_id,
        title: row.title.clone(),
        description: row.description.clone(),
        location: row.location.clone(),
        salary: match &row.salary {
            Some(s) => Some(s.clone()),
            None => None,
        },
        employment_type,
        posted_at,
        updated_at,
    })
}

/// An `applications` table row, fields as they sit in storage.
#[derive(Clone, Debug)]
pub struct ApplicationRow {
    pub id: i64,
    pub job_seeker_id: i64,
    pub job_id: i64,
    pub cover_letter: Option<String>,
    pub resume: Option<String>,
    pub status: String,
    pub applied_at: String,
}

/// Serialize an application for storage. Fails only on a timestamp outside
/// the representable range.
pub fn encode_application(a: &Application) -> (r: Option<ApplicationRow>)
    ensures
        (match r {
            Some(row) => {
                &&& spec_text_representable(a.applied_at)
                &&& row.id == a.id
                &&& row.job_seeker_id == a.job_seeker_id
                &&& row.job_id == a.job_id
                &&& spec_opt_text(row.cover_letter) == spec_opt_text(a.cover_letter)
                &&& spec_opt_text(row.resume) == spec_opt_text(a.resume)
                &&& row.status@ == spec_status_str(a.status)
                &&& rfc3339_value(row.applied_at@) == Some(a.applied_at as int)
            },
            None => !spec_text_representable(a.applied_at),
        }),
{
    if !(a.applied_at >= 0 && a.applied_at < RFC3339_TEXT_END) {
        return None;
    }
    Some(ApplicationRow {
        id: a.id,
        job_seeker_id: a.job_seeker_id,
        job_id: a.job_id,
        cover_letter: match &a.cover_letter {
            Some(s) => Some(s.clone()),
            None => None,
        },
        resume: match &a.resume {
            Some(s) => Some(s.clone()),
            None => None,
        },
        status: a.status.encode(),
        applied_at: timestamp_to_rfc3339(a.applied_at),
    })
}

/// Reconstruct an application from a stored row. Fails with
/// `InvalidEnumValue` on an unrecognized status string, else with
/// `MalformedTimestamp` when `applied_at` is not valid RFC 3339.
pub fn decode_application(row: &ApplicationRow) -> (r: Result<Application, CodecError>)
    ensures
        (match r {
            Ok(a) => {
                &&& spec_parse_status(row.status@) == Some(a.status)
                &&& rfc3339_value(row.applied_at@) == Some(a.applied_at as int)
                &&& a.id == row.id
                &&& a.job_seeker_id == row.job_seeker_id
                &&& a.job_id == row.job_id
                &&& spec_opt_text(a.cover_letter) == spec_opt_text(row.cover_letter)
                &&& spec_opt_text(a.resume) == spec_opt_text(row.resume)
            },
            Err(CodecError::InvalidEnumValue) => spec_parse_status(row.status@) is None,
            Err(CodecError::MalformedTimestamp) => spec_parse_status(row.status@) is Some
                && rfc3339_value(row.applied_at@) is None,
        }),
{
    let status = match ApplicationStatus::decode(row.status.as_str()) {
        Ok(v) => v,
        Err(e) => {
            return Err(e);
        },
    };
    let applied_at = match timestamp_from_rfc3339(row.applied_at.as_str()) {
        Some(t) => t,
        None => {
            return Err(CodecError::MalformedTimestamp);
        },
    };
    Ok(Application {
        id: row.id,
        job_seeker_id: row.job_seeker_id,
        job_id: row.job_id,
        cover_letter: match &row.cover_letter {
            Some(s) => Some(s.clone()),
            None => None,
        },
        resume: match &row.resume {
            Some(s) => Some(s.clone()),
            None => None,
        },
        status,
        applied_at,
    })
}

} // verus!
