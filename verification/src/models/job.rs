//! The `Job` record, its employment-type enum with the enum-to-string
//! codec, and the partial-update request shape.

use vstd::prelude::*;
use crate::codec::{str_eq, CodecError};

verus! {

/// Type of employment a job offers.
#[derive(Clone, Copy, PartialEq, Eq, Structural, Debug)]
pub enum EmploymentType {
    FullTime,
    PartTime,
    Contract,
}

/// The canonical storage and wire string of an employment type.
pub open spec fn spec_employment_str(t: EmploymentType) -> Seq<char> {
    match t {
        EmploymentType::FullTime => "full_time"@,
        EmploymentType::PartTime => "part_time"@,
        EmploymentType::Contract => "contract"@,
    }
}

/// The employment type a string names, by exact, case-sensitive match.
pub open spec fn spec_parse_employment(s: Seq<char>) -> Option<EmploymentType> {
    if s == "full_time"@ {
        Some(EmploymentType::FullTime)
    } else if s == "part_time"@ {
        Some(EmploymentType::PartTime)
    } else if s == "contract"@ {
        Some(EmploymentType::Contract)
    } else {
        None
    }
}

impl EmploymentType {
    /// Serialize the employment type to its canonical lowercase string.
    pub fn encode(&self) -> (r: String)
        ensures
            r@ == spec_employment_str(*self),
    {
        match self {
            EmploymentType::FullTime => "full_time".to_owned(),
            EmploymentType::PartTime => "part_time".to_owned(),
            EmploymentType::Contract => "contract".to_owned(),
        }
    }

    /// Deserialize an employment type by exact string match.
    pub fn decode(s: &str) -> (r: Result<EmploymentType, CodecError>)
        ensures
            (match r {
                Ok(v) => spec_parse_employment(s@) == Some(v),
                Err(e) => spec_parse_employment(s@) is None && e == CodecError::InvalidEnumValue,
            }),
    {
        if str_eq(s, "full_time") {
            Ok(EmploymentType::FullTime)
        } else if str_eq(s, "part_time") {
            Ok(EmploymentType::PartTime)
        } else if str_eq(s, "contract") {
            Ok(EmploymentType::Contract)
        } else {
            Err(CodecError::InvalidEnumValue)
        }
    }
}

/// Decoding an employment-type string that `encode` produced yields the
/// encoded variant: the codec round-trips on every variant.
pub proof fn lemma_employment_round_trip(t: EmploymentType)
    ensures
        spec_parse_employment(spec_employment_str(t)) == Some(t),
{
    reveal_strlit("full_time");
    reveal_strlit("part_time");
    reveal_strlit("contract");
    assert("full_time"@.len() == 9);
    assert("part_time"@.len() == 9);
    assert("contract"@.len() == 8);
    assert("full_time"@[0] == 'f');
    assert("part_time"@[0] == 'p');
}

/// A job posting. Timestamps count seconds since the Unix epoch, UTC.
#[derive(Debug)]
pub struct Job {
    /// Server-assigned table id.
    pub id: i64,
    /// Id of the employer (a `User`) who posted the job.
    pub employer_id: i64,
    /// Title of the job.
    pub title: String,
    /// Detailed description.
    pub description: String,
    /// Where the job is located.
    pub location: String,
    /// Salary or pay range, when given.
    pub salary: Option<String>,
    /// Type of employment.
    pub employment_type: EmploymentType,
    /// When the job was posted; set once at creation, immutable after.
    pub posted_at: i64,
    /// When the posting last changed; refreshed by every update.
    pub updated_at: i64,
}

impl Clone for Job {
    fn clone(&self) -> (r: Self)
        ensures
            r == *self,
    {
        Job {
            id: self.id,
            employer_id: self.employer_id,
            title: self.title.clone(),
            description: self.description.clone(),
            location: self.location.clone(),
            salary: match &self.salary {
                Some(s) => Some(s.clone()),
                None => None,
            },
            employment_type: self.employment_type,
            posted_at: self.posted_at,
            updated_at: self.updated_at,
        }
    }
}

/// What a client supplies to create a job; the server assigns the id and
/// both timestamps.
#[derive(Debug)]
pub struct JobCreateRequest {
    /// Id of the employer posting the job.
    pub employer_id: i64,
    /// Title of the job.
    pub title: String,
    /// Detailed description.
    pub description: String,
    /// Where the job is located.
    pub location: String,
    /// Salary or pay range, when given.
    pub salary: Option<String>,
    /// Type of employment.
    pub employment_type: EmploymentType,
}

impl Clone for JobCreateRequest {
    fn clone(&self) -> (r: Self)
        ensures
            r == *self,
    {
        JobCreateRequest {
            employer_id: self.employer_id,
            title: self.title.clone(),
            description: self.description.clone(),
            location: self.location.clone(),
            salary: match &self.salary {
                Some(s) => Some(s.clone()),
                None => None,
            },
            employment_type: self.employment_type,
        }
    }
}

/// Request to update a job in part: absent fields keep their stored value.
#[derive(Debug)]
pub struct JobUpdateRequest {
    /// Optional new title.
    pub title: Option<String>,
    /// Optional new description.
    pub description: Option<String>,
    /// Optional new location.
    pub location: Option<String>,
    /// Optional new salary.
    pub salary: Option<String>,
    /// Optional new employment type.
    pub employment_type: Option<EmploymentType>,
}

impl Clone for JobUpdateRequest {
    fn clone(&self) -> (r: Self)
        ensures
            r == *self,
    {
        JobUpdateRequest {
            title: match &self.title {
                Some(s) => Some(s.clone()),
                None => None,
            },
            description: match &self.description {
                Some(s) => Some(s.clone()),
                None => None,
            },
            location: match &self.location {
                Some(s) => Some(s.clone()),
                None => None,
            },
            salary: match &self.salary {
                Some(s) => Some(s.clone()),
                None => None,
            },
            employment_type: self.employment_type,
        }
    }
}

} // verus!
