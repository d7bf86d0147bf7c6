//! Storage-row codec: RFC 3339 timestamp text, row round trips, and the
//! exact failure for each malformed column.

use job_board::codec::{
    decode_application, decode_job, decode_user, encode_application, encode_job, encode_user,
    CodecError, RFC3339_TEXT_END,
};
use job_board::models::application::{Application, ApplicationStatus};
use job_board::models::job::{EmploymentType, Job};
use job_board::models::user::{User, UserRole};

fn sample_user() -> User {
    User {
        id: 7,
        name: "John Doe".to_owned(),
        email: "john@x.com".to_owned(),
        password: "h".to_owned(),
        role: UserRole::JobSeeker,
        created_at: 1726500600,
        updated_at: 1726500600,
    }
}

fn sample_job() -> Job {
    Job {
        id: 3,
        employer_id: 1,
        title: "Software Engineer".to_owned(),
        description: "Build things".to_owned(),
        location: "San Francisco, CA".to_owned(),
        salary: Some("$120,000 - $150,000".to_owned()),
        employment_type: EmploymentType::FullTime,
        posted_at: 0,
        updated_at: 1726500600,
    }
}

fn sample_application() -> Application {
    Application {
        id: 5,
        job_seeker_id: 2,
        job_id: 3,
        cover_letter: None,
        resume: Some("https://example.com/resume.pdf".to_owned()),
        status: ApplicationStatus::Reviewed,
        applied_at: 1726500600,
    }
}

#[test]
fn user_row_holds_rfc3339_text() {
    let row = encode_user(&sample_user()).unwrap();
    assert_eq!(row.created_at, "2024-09-16T15:30:00+00:00");
    assert_eq!(row.role, "job_seeker");
}

#[test]
fn epoch_formats_as_rfc3339() {
    let mut u = sample_user();
    u.created_at = 0;
    let row = encode_user(&u).unwrap();
    assert_eq!(row.created_at, "1970-01-01T00:00:00+00:00");
}

#[test]
fn encode_rejects_out_of_range_timestamps() {
    let mut u = sample_user();
    u.created_at = -1;
    assert!(encode_user(&u).is_none());
    u.created_at = RFC3339_TEXT_END;
    assert!(encode_user(&u).is_none());
    u.created_at = RFC3339_TEXT_END - 1;
    assert!(encode_user(&u).is_some());
}

#[test]
fn user_row_round_trips() {
    let u = sample_user();
    let row = encode_user(&u).unwrap();
    let back = decode_user(&row).unwrap();
    assert_eq!(back.id, u.id);
    assert_eq!(back.name, u.name);
    assert_eq!(back.email, u.email);
    assert_eq!(back.password, u.password);
    assert_eq!(back.role, u.role);
    assert_eq!(back.created_at, u.created_at);
    assert_eq!(back.updated_at, u.updated_at);
}

#[test]
fn decode_accepts_zulu_timestamps() {
    let mut row = encode_user(&sample_user()).unwrap();
    row.created_at = "2024-09-16T15:30:00Z".to_owned();
    let back = decode_user(&row).unwrap();
    assert_eq!(back.created_at, 1726500600);
}

#[test]
fn decode_user_reports_bad_role_first() {
    let mut row = encode_user(&sample_user()).unwrap();
    row.role = "king".to_owned();
    row.created_at = "not a date".to_owned();
    assert!(matches!(decode_user(&row), Err(CodecError::InvalidEnumValue)));
}

#[test]
fn decode_user_rejects_malformed_timestamp() {
    let mut row = encode_user(&sample_user()).unwrap();
    row.updated_at = "2024-09-16 15:30:00".to_owned();
    assert!(matches!(decode_user(&row), Err(CodecError::MalformedTimestamp)));
}

#[test]
fn job_row_round_trips() {
    let j = sample_job();
    let row = encode_job(&j).unwrap();
    assert_eq!(row.employment_type, "full_time");
    assert_eq!(row.posted_at, "1970-01-01T00:00:00+00:00");
    let back = decode_job(&row).unwrap();
    assert_eq!(back.id, j.id);
    assert_eq!(back.employer_id, j.employer_id);
    assert_eq!(back.title, j.title);
    assert_eq!(back.description, j.description);
    assert_eq!(back.location, j.location);
    assert_eq!(back.salary, j.salary);
    assert_eq!(back.employment_type, j.employment_type);
    assert_eq!(back.posted_at, j.posted_at);
    assert_eq!(back.updated_at, j.updated_at);
}

#[test]
fn job_row_keeps_missing_salary() {
    let mut j = sample_job();
    j.salary = None;
    let row = encode_job(&j).unwrap();
    assert_eq!(row.salary, None);
    assert_eq!(decode_job(&row).unwrap().salary, None);
}

#[test]
fn decode_job_rejects_bad_employment_type() {
    let mut row = encode_job(&sample_job()).unwrap();
    row.employment_type = "gig".to_owned();
    assert!(matches!(decode_job(&row), Err(CodecError::InvalidEnumValue)));
}

#[test]
fn application_row_round_trips() {
    let a = sample_application();
    let row = encode_application(&a).unwrap();
    assert_eq!(row.status, "reviewed");
    let back = decode_application(&row).unwrap();
    assert_eq!(back.id, a.id);
    assert_eq!(back.job_seeker_id, a.job_seeker_id);
    assert_eq!(back.job_id, a.job_id);
    assert_eq!(back.cover_letter, a.cover_letter);
    assert_eq!(back.resume, a.resume);
    assert_eq!(back.status, a.status);
    assert_eq!(back.applied_at, a.applied_at);
}

#[test]
fn decode_application_rejects_bad_status() {
    let mut row = encode_application(&sample_application()).unwrap();
    row.status = "on_hold".to_owned();
    assert!(matches!(decode_application(&row), Err(CodecError::InvalidEnumValue)));
}

#[test]
fn decode_application_rejects_malformed_timestamp() {
    let mut row = encode_application(&sample_application()).unwrap();
    row.applied_at = "yesterday".to_owned();
    assert!(matches!(
        decode_application(&row),
        Err(CodecError::MalformedTimestamp)
    ));
}
