//! The `User` record, its role enum with the enum-to-string codec, and the
//! partial-update request shape.

use vstd::prelude::*;
use crate::codec::{str_eq, CodecError};

verus! {

/// Role of a user on the board.
#[derive(Clone, Copy, PartialEq, Eq, Structural, Debug)]
pub enum UserRole {
    JobSeeker,
    Employer,
}

/// The canonical storage and wire string of a role.
pub open spec fn spec_role_str(r: UserRole) -> Seq<char> {
    match r {
        UserRole::JobSeeker => "job_seeker"@,
        UserRole::Employer => "employer"@,
    }
}

/// The role a string names, by exact, case-sensitive match.
pub open spec fn spec_parse_role(s: Seq<char>) -> Option<UserRole> {
    if s == "job_seeker"@ {
        Some(UserRole::JobSeeker)
    } else if s == "employer"@ {
        Some(UserRole::Employer)
    } else {
        None
    }
}

impl UserRole {
    /// Serialize the role to its canonical lowercase string.
    pub fn encode(&self) -> (r: String)
        ensures
            r@ == spec_role_str(*self),
    {
        match self {
            UserRole::JobSeeker => "job_seeker".to_owned(),
            UserRole::Employer => "employer".to_owned(),
        }
    }

    /// Deserialize a role by exact string match.
    pub fn decode(s: &str) -> (r: Result<UserRole, CodecError>)
        ensures
            (match r {
                Ok(v) => spec_parse_role(s@) == Some(v),
                Err(e) => spec_parse_role(s@) is None && e == CodecError::InvalidEnumValue,
            }),
    {
        if str_eq(s, "job_seeker") {
            Ok(UserRole::JobSeeker)
        } else if str_eq(s, "employer") {
            Ok(UserRole::Employer)
        } else {
            Err(CodecError::InvalidEnumValue)
        }
    }
}

/// Decoding a role string that `encode` produced yields the encoded role:
/// the enum-to-string codec round-trips on every variant.
pub proof fn lemma_role_round_trip(r: UserRole)
    ensures
        spec_parse_role(spec_role_str(r)) == Some(r),
{
    reveal_strlit("job_seeker");
    reveal_strlit("employer");
    assert("job_seeker"@.len() == 10);
    assert("employer"@.len() == 8);
}

/// A user of the board. Timestamps count seconds since the Unix epoch, UTC.
#[derive(Debug)]
pub struct User {
    /// Server-assigned table id.
    pub id: i64,
    /// Full name.
    pub name: String,
    /// Email address; unique across the store.
    pub email: String,
    /// Pre-hashed password (hashing is outside this core).
    pub password: String,
    /// Role on the board.
    pub role: UserRole,
    /// When the user registered; set once at creation.
    pub created_at: i64,
    /// When the profile last changed; refreshed by every update.
    pub updated_at: i64,
}

impl Clone for User {
    fn clone(&self) -> (r: Self)
        ensures
            r == *self,
    {
        User {
            id: self.id,
            name: self.name.clone(),
            email: self.email.clone(),
            password: self.password.clone(),
            role: self.role,
            created_at: self.created_at,
            updated_at: self.updated_at,
        }
    }
}

/// Request to create a user or to update one in part: absent fields keep
/// their stored value on update, and `role` defaults on creation.
#[derive(Debug)]
pub struct UserUpdateRequest {
    /// Optional new name.
    pub name: Option<String>,
    /// Optional new email.
    pub email: Option<String>,
    /// Optional new pre-hashed password.
    pub password: Option<String>,
    /// Optional new role.
    pub role: Option<UserRole>,
}

impl Clone for UserUpdateRequest {
    fn clone(&self) -> (r: Self)
        ensures
            r == *self,
    {
        UserUpdateRequest {
            name: match &self.name {
                Some(s) => Some(s.clone()),
                None => None,
            },
            email: match &self.email {
                Some(s) => Some(s.clone()),
                None => None,
            },
            password: match &self.password {
                Some(s) => Some(s.clone()),
                None => None,
            },
            role: self.role,
        }
    }
}

} // verus!
