//! Job and application handlers over their stores: creation defaults,
//! merge behavior, the job `updated_at` quirk, and deletion.

use job_board::models::application::{
    ApplicationCreateRequest, ApplicationStatus, ApplicationUpdateRequest,
};
use job_board::models::job::{EmploymentType, JobCreateRequest, JobUpdateRequest};
use job_board::models::{ApplicationStore, JobStore};
use job_board::routes::application_route::{
    create_application, delete_application, get_application_by_id, get_applications,
    update_application, ApplicationQuery,
};
use job_board::routes::job::{
    create_job, delete_job, get_job_by_id, get_jobs, update_job, JobQuery,
};
use job_board::utils::ErrorResponse;

const T1: i64 = 1726500600;
const T2: i64 = 1726501000;

fn job_payload() -> JobCreateRequest {
    JobCreateRequest {
        employer_id: 1,
        title: "Software Engineer".to_owned(),
        description: "Build and maintain software".to_owned(),
        location: "San Francisco, CA".to_owned(),
        salary: Some("$120,000 - $150,000".to_owned()),
        employment_type: EmploymentType::FullTime,
    }
}

fn application_payload() -> ApplicationCreateRequest {
    ApplicationCreateRequest {
        job_seeker_id: 2,
        job_id: 1,
        cover_letter: Some("I am excited".to_owned()),
        resume: None,
        status: None,
    }
}

#[test]
fn job_create_sets_both_timestamps_to_now() {
    let mut store = JobStore::new();
    let j = create_job(&mut store, job_payload(), T1).unwrap();
    assert_eq!(j.id, 1);
    assert_eq!(j.posted_at, T1);
    assert_eq!(j.updated_at, T1);
    let got = get_job_by_id(&store, 1).unwrap();
    assert_eq!(got.title, "Software Engineer");
    assert_eq!(got.salary.as_deref(), Some("$120,000 - $150,000"));
}

#[test]
fn job_update_merges_and_keeps_posted_at() {
    let mut store = JobStore::new();
    let j = create_job(&mut store, job_payload(), T1).unwrap();
    let req = JobUpdateRequest {
        title: Some("Senior Software Engineer".to_owned()),
        description: None,
        location: None,
        salary: None,
        employment_type: Some(EmploymentType::Contract),
    };
    let updated = update_job(&mut store, j.id, &req, T2).unwrap();
    assert_eq!(updated.title, "Senior Software Engineer");
    assert_eq!(updated.description, j.description);
    assert_eq!(updated.location, j.location);
    assert_eq!(updated.salary, j.salary);
    assert_eq!(updated.employment_type, EmploymentType::Contract);
    assert_eq!(updated.posted_at, T1);
    assert_eq!(updated.updated_at, T2);
    // The merged record is what the store now holds.
    let got = get_job_by_id(&store, j.id).unwrap();
    assert_eq!(got.title, "Senior Software Engineer");
    assert_eq!(got.updated_at, T2);
}

#[test]
fn job_empty_update_still_refreshes_updated_at() {
    let mut store = JobStore::new();
    let j = create_job(&mut store, job_payload(), T1).unwrap();
    let req = JobUpdateRequest {
        title: None,
        description: None,
        location: None,
        salary: None,
        employment_type: None,
    };
    let updated = update_job(&mut store, j.id, &req, T2).unwrap();
    assert_eq!(updated.title, j.title);
    assert_eq!(updated.salary, j.salary);
    assert_eq!(updated.posted_at, T1);
    // The documented quirk: even an empty update bumps updated_at.
    assert_eq!(updated.updated_at, T2);
}

#[test]
fn job_delete_then_get_is_not_found() {
    let mut store = JobStore::new();
    let j = create_job(&mut store, job_payload(), T1).unwrap();
    delete_job(&mut store, j.id);
    let err = get_job_by_id(&store, j.id).unwrap_err();
    assert!(matches!(err, ErrorResponse::NotFound(_)));
    delete_job(&mut store, j.id);
    assert_eq!(get_jobs(&store, &JobQuery { limit: None, offset: None }).count, 0);
}

#[test]
fn job_update_on_absent_id_is_not_found() {
    let mut store = JobStore::new();
    let req = JobUpdateRequest {
        title: None,
        description: None,
        location: None,
        salary: None,
        employment_type: None,
    };
    assert!(matches!(
        update_job(&mut store, 5, &req, T1),
        Err(ErrorResponse::NotFound(_))
    ));
}

#[test]
fn application_create_defaults_status_to_pending() {
    let mut store = ApplicationStore::new();
    let a = create_application(&mut store, application_payload(), T1).unwrap();
    assert_eq!(a.id, 1);
    assert_eq!(a.status, ApplicationStatus::Pending);
    assert_eq!(a.applied_at, T1);
    assert_eq!(a.cover_letter.as_deref(), Some("I am excited"));
    assert_eq!(a.resume, None);
}

#[test]
fn application_create_honors_given_status() {
    let mut store = ApplicationStore::new();
    let mut payload = application_payload();
    payload.status = Some(ApplicationStatus::Reviewed);
    let a = create_application(&mut store, payload, T1).unwrap();
    assert_eq!(a.status, ApplicationStatus::Reviewed);
}

#[test]
fn application_update_merges_mutable_fields_only() {
    let mut store = ApplicationStore::new();
    let a = create_application(&mut store, application_payload(), T1).unwrap();
    let req = ApplicationUpdateRequest {
        cover_letter: None,
        resume: Some("https://example.com/resume.pdf".to_owned()),
        status: Some(ApplicationStatus::Accepted),
    };
    let updated = update_application(&mut store, a.id, &req).unwrap();
    assert_eq!(updated.cover_letter, a.cover_letter);
    assert_eq!(updated.resume.as_deref(), Some("https://example.com/resume.pdf"));
    assert_eq!(updated.status, ApplicationStatus::Accepted);
    assert_eq!(updated.job_seeker_id, a.job_seeker_id);
    assert_eq!(updated.job_id, a.job_id);
    assert_eq!(updated.applied_at, T1);
}

#[test]
fn application_empty_update_changes_nothing() {
    let mut store = ApplicationStore::new();
    let a = create_application(&mut store, application_payload(), T1).unwrap();
    let req = ApplicationUpdateRequest { cover_letter: None, resume: None, status: None };
    let updated = update_application(&mut store, a.id, &req).unwrap();
    assert_eq!(updated.cover_letter, a.cover_letter);
    assert_eq!(updated.resume, a.resume);
    assert_eq!(updated.status, a.status);
    assert_eq!(updated.applied_at, a.applied_at);
}

#[test]
fn application_delete_then_get_is_not_found() {
    let mut store = ApplicationStore::new();
    let a = create_application(&mut store, application_payload(), T1).unwrap();
    delete_application(&mut store, a.id);
    assert!(matches!(
        get_application_by_id(&store, a.id),
        Err(ErrorResponse::NotFound(_))
    ));
    let envelope =
        get_applications(&store, &ApplicationQuery { limit: None, offset: None });
    assert_eq!(envelope.count, 0);
    assert!(envelope.items.is_empty());
}
