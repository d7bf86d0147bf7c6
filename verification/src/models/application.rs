//! The `Application` record, its status enum with the enum-to-string
//! codec, and the creation and partial-update request shapes.

use vstd::prelude::*;
use crate::codec::{str_eq, CodecError};

verus! {

/// Review status of an application.
#[derive(Clone, Copy, PartialEq, Eq, Structural, Debug)]
pub enum ApplicationStatus {
    Pending,
    Reviewed,
    Accepted,
    Rejected,
}

/// The canonical storage and wire string of a status.
pub open spec fn spec_status_str(s: ApplicationStatus) -> Seq<char> {
    match s {
        ApplicationStatus::Pending => "pending"@,
        ApplicationStatus::Reviewed => "reviewed"@,
        ApplicationStatus::Accepted => "accepted"@,
        ApplicationStatus::Rejected => "rejected"@,
    }
}

/// The status a string names, by exact, case-sensitive match.
pub open spec fn spec_parse_status(s: Seq<char>) -> Option<ApplicationStatus> {
    if s == "pending"@ {
        Some(ApplicationStatus::Pending)
    } else if s == "reviewed"@ {
        Some(ApplicationStatus::Reviewed)
    } else if s == "accepted"@ {
        Some(ApplicationStatus::Accepted)
    } else if s == "rejected"@ {
        Some(ApplicationStatus::Rejected)
    } else {
        None
    }
}

impl ApplicationStatus {
    /// Serialize the status to its canonical lowercase string.
    pub fn encode(&self) -> (r: String)
        ensures
            r@ == spec_status_str(*self),
    {
        match self {
            ApplicationStatus::Pending => "pending".to_owned(),
            ApplicationStatus::Reviewed => "reviewed".to_owned(),
            ApplicationStatus::Accepted => "accepted".to_owned(),
            ApplicationStatus::Rejected => "rejected".to_owned(),
        }
    }

    /// Deserialize a status by exact string match.
    pub fn decode(s: &str) -> (r: Result<ApplicationStatus, CodecError>)
        ensures
            (match r {
                Ok(v) => spec_parse_status(s@) == Some(v),
                Err(e) => spec_parse_status(s@) is None && e == CodecError::InvalidEnumValue,
            }),
    {
        if str_eq(s, "pending") {
            Ok(ApplicationStatus::Pending)
        } else if str_eq(s, "reviewed") {
            Ok(ApplicationStatus::Reviewed)
        } else if str_eq(s, "accepted") {
            Ok(ApplicationStatus::Accepted)
        } else if str_eq(s, "rejected") {
            Ok(ApplicationStatus::Rejected)
        } else {
            Err(CodecError::InvalidEnumValue)
        }
    }
}

/// Decoding a status string that `encode` produced yields the encoded
/// variant: the codec round-trips on every variant.
pub proof fn lemma_status_round_trip(s: ApplicationStatus)
    ensures
        spec_parse_status(spec_status_str(s)) == Some(s),
{
    reveal_strlit("pending");
    reveal_strlit("reviewed");
    reveal_strlit("accepted");
    reveal_strlit("rejected");
    assert("pending"@.len() == 7);
    assert("reviewed"@.len() == 8);
    assert("accepted"@.len() == 8);
    assert("rejected"@.len() == 8);
    assert("reviewed"@[0] == 'r');
    assert("accepted"@[0] == 'a');
    assert("rejected"@[0] == 'r');
    assert("reviewed"@[1] == 'e');
    assert("rejected"@[1] == 'e');
    assert("reviewed"@[2] == 'v');
    assert("rejected"@[2] == 'j');
}

/// A job application. `applied_at` counts seconds since the Unix epoch,
/// UTC; it is set once at creation and never changed by updates.
#[derive(Debug)]
pub struct Application {
    /// Server-assigned table id.
    pub id: i64,
    /// Id of the job seeker (a `User`) who applied.
    pub job_seeker_id: i64,
    /// Id of the `Job` applied for.
    pub job_id: i64,
    /// Cover letter, when given.
    pub cover_letter: Option<String>,
    /// Link to the resume, when given.
    pub resume: Option<String>,
    /// Review status.
    pub status: ApplicationStatus,
    /// When the application was submitted.
    pub applied_at: i64,
}

impl Clone for Application {
    fn clone(&self) -> (r: Self)
        ensures
            r == *self,
    {
        Application {
            id: self.id,
            job_seeker_id: self.job_seeker_id,
            job_id: self.job_id,
            cover_letter: match &self.cover_letter {
                Some(s) => Some(s.clone()),
                None => None,
            },
            resume: match &self.resume {
                Some(s) => Some(s.clone()),
                None => None,
            },
            status: self.status,
            applied_at: self.applied_at,
        }
    }
}

/// What a client supplies to create an application; the server assigns the
/// id and `applied_at`, and the status defaults to pending when absent.
#[derive(Debug)]
pub struct ApplicationCreateRequest {
    /// Id of the job seeker applying.
    pub job_seeker_id: i64,
    /// Id of the job applied for.
    pub job_id: i64,
    /// Cover letter, when given.
    pub cover_letter: Option<String>,
    /// Link to the resume, when given.
    pub resume: Option<String>,
    /// Initial status, when given; pending otherwise.
    pub status: Option<ApplicationStatus>,
}

impl Clone for ApplicationCreateRequest {
    fn clone(&self) -> (r: Self)
        ensures
            r == *self,
    {
        ApplicationCreateRequest {
            job_seeker_id: self.job_seeker_id,
            job_id: self.job_id,
            cover_letter: match &self.cover_letter {
                Some(s) => Some(s.clone()),
                None => None,
            },
            resume: match &self.resume {
                Some(s) => Some(s.clone()),
                None => None,
            },
            status: self.status,
        }
    }
}

/// Request to update an application in part, over its mutable fields only:
/// absent fields keep their stored value.
#[derive(Debug)]
pub struct ApplicationUpdateRequest {
    /// Optional new cover letter.
    pub cover_letter: Option<String>,
    /// Optional new resume link.
    pub resume: Option<String>,
    /// Optional new status.
    pub status: Option<ApplicationStatus>,
}

impl Clone for ApplicationUpdateRequest {
    fn clone(&self) -> (r: Self)
        ensures
            r == *self,
    {
        ApplicationUpdateRequest {
            cover_letter: match &self.cover_letter {
                Some(s) => Some(s.clone()),
                None => None,
            },
            resume: match &self.resume {
                Some(s) => Some(s.clone()),
                None => None,
            },
            status: self.status,
        }
    }
}

} // verus!
