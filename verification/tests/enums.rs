//! Enum-to-string codec: exact wire strings, round trips on every
//! variant, and exact, case-sensitive rejection.

use job_board::codec::CodecError;
use job_board::models::application::ApplicationStatus;
use job_board::models::job::EmploymentType;
use job_board::models::user::UserRole;

#[test]
fn role_encodes_to_wire_strings() {
    assert_eq!(UserRole::JobSeeker.encode(), "job_seeker");
    assert_eq!(UserRole::Employer.encode(), "employer");
}

#[test]
fn employment_encodes_to_wire_strings() {
    assert_eq!(EmploymentType::FullTime.encode(), "full_time");
    assert_eq!(EmploymentType::PartTime.encode(), "part_time");
    assert_eq!(EmploymentType::Contract.encode(), "contract");
}

#[test]
fn status_encodes_to_wire_strings() {
    assert_eq!(ApplicationStatus::Pending.encode(), "pending");
    assert_eq!(ApplicationStatus::Reviewed.encode(), "reviewed");
    assert_eq!(ApplicationStatus::Accepted.encode(), "accepted");
    assert_eq!(ApplicationStatus::Rejected.encode(), "rejected");
}

#[test]
fn role_round_trips_every_variant() {
    for v in [UserRole::JobSeeker, UserRole::Employer] {
        assert_eq!(UserRole::decode(v.encode().as_str()).unwrap(), v);
    }
}

#[test]
fn employment_round_trips_every_variant() {
    for v in [
        EmploymentType::FullTime,
        EmploymentType::PartTime,
        EmploymentType::Contract,
    ] {
        assert_eq!(EmploymentType::decode(v.encode().as_str()).unwrap(), v);
    }
}

#[test]
fn status_round_trips_every_variant() {
    for v in [
        ApplicationStatus::Pending,
        ApplicationStatus::Reviewed,
        ApplicationStatus::Accepted,
        ApplicationStatus::Rejected,
    ] {
        assert_eq!(ApplicationStatus::decode(v.encode().as_str()).unwrap(), v);
    }
}

#[test]
fn decode_rejects_unknown_strings() {
    assert_eq!(UserRole::decode("boss"), Err(CodecError::InvalidEnumValue));
    assert_eq!(UserRole::decode(""), Err(CodecError::InvalidEnumValue));
    assert_eq!(
        EmploymentType::decode("freelance"),
        Err(CodecError::InvalidEnumValue)
    );
    assert_eq!(
        ApplicationStatus::decode("archived"),
        Err(CodecError::InvalidEnumValue)
    );
}

#[test]
fn decode_is_case_sensitive() {
    assert_eq!(
        UserRole::decode("Job_Seeker"),
        Err(CodecError::InvalidEnumValue)
    );
    assert_eq!(
        EmploymentType::decode("FULL_TIME"),
        Err(CodecError::InvalidEnumValue)
    );
    assert_eq!(
        ApplicationStatus::decode("Pending"),
        Err(CodecError::InvalidEnumValue)
    );
}
