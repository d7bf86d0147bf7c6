//! Pagination: page arithmetic, the limit/offset defaults, the
//! zero-limit guard, and the error-response status codes.

use job_board::models::job::{EmploymentType, JobCreateRequest};
use job_board::models::JobStore;
use job_board::routes::job::{create_job, get_jobs, JobQuery};
use job_board::utils::ErrorResponse;

const T1: i64 = 1726500600;

fn store_with_jobs(n: i64) -> JobStore {
    let mut store = JobStore::new();
    for i in 0..n {
        create_job(
            &mut store,
            JobCreateRequest {
                employer_id: 1,
                title: format!("Job {}", i),
                description: "d".to_owned(),
                location: "l".to_owned(),
                salary: None,
                employment_type: EmploymentType::FullTime,
            },
            T1,
        )
        .unwrap();
    }
    store
}

#[test]
fn defaults_are_limit_ten_offset_zero() {
    let store = store_with_jobs(25);
    let page = get_jobs(&store, &JobQuery { limit: None, offset: None });
    assert_eq!(page.page, 1);
    assert_eq!(page.count, 25);
    assert_eq!(page.items.len(), 10);
    assert_eq!(page.items[0].title, "Job 0");
    assert_eq!(page.items[9].title, "Job 9");
}

#[test]
fn page_is_offset_over_limit_plus_one() {
    let store = store_with_jobs(25);
    let page = get_jobs(&store, &JobQuery { limit: Some(5), offset: Some(7) });
    // 7 / 5 + 1 == 2 by integer division.
    assert_eq!(page.page, 2);
    assert_eq!(page.items.len(), 5);
    assert_eq!(page.items[0].title, "Job 7");
    assert_eq!(page.items[4].title, "Job 11");

    let page = get_jobs(&store, &JobQuery { limit: Some(10), offset: Some(10) });
    assert_eq!(page.page, 2);
    assert_eq!(page.items.len(), 10);
    assert_eq!(page.items[0].title, "Job 10");
}

#[test]
fn short_last_page_and_out_of_range_offset() {
    let store = store_with_jobs(25);
    let page = get_jobs(&store, &JobQuery { limit: Some(10), offset: Some(20) });
    assert_eq!(page.page, 3);
    assert_eq!(page.items.len(), 5);

    let page = get_jobs(&store, &JobQuery { limit: Some(10), offset: Some(100) });
    assert_eq!(page.page, 11);
    assert_eq!(page.items.len(), 0);
    assert_eq!(page.count, 25);
}

#[test]
fn zero_limit_defaults_instead_of_dividing() {
    let store = store_with_jobs(25);
    // limit = 0 must not reach the page division; it falls back to 10.
    let page = get_jobs(&store, &JobQuery { limit: Some(0), offset: Some(0) });
    assert_eq!(page.page, 1);
    assert_eq!(page.items.len(), 10);

    let page = get_jobs(&store, &JobQuery { limit: Some(0), offset: Some(20) });
    assert_eq!(page.page, 3);
    assert_eq!(page.items.len(), 5);
}

#[test]
fn negative_parameters_are_clamped() {
    let store = store_with_jobs(12);
    let page = get_jobs(&store, &JobQuery { limit: Some(-3), offset: Some(-9) });
    assert_eq!(page.page, 1);
    assert_eq!(page.items.len(), 10);
    assert_eq!(page.items[0].title, "Job 0");
}

#[test]
fn items_never_exceed_limit() {
    let store = store_with_jobs(4);
    let page = get_jobs(&store, &JobQuery { limit: Some(3), offset: Some(0) });
    assert_eq!(page.items.len(), 3);
    let page = get_jobs(&store, &JobQuery { limit: Some(30), offset: Some(0) });
    assert_eq!(page.items.len(), 4);
}

#[test]
fn error_responses_map_to_status_codes() {
    let cases: Vec<(ErrorResponse, u16)> = vec![
        (ErrorResponse::NotFound("m".to_owned()), 404),
        (ErrorResponse::Conflict("m".to_owned()), 409),
        (ErrorResponse::Unauthorized("m".to_owned()), 401),
        (ErrorResponse::InternalError("m".to_owned()), 500),
        (ErrorResponse::BadRequest("m".to_owned()), 400),
        (ErrorResponse::Forbidden("m".to_owned()), 403),
        (ErrorResponse::AlreadyExists("m".to_owned()), 409),
    ];
    for (e, code) in cases {
        assert_eq!(e.status_code(), code);
        assert_eq!(e.message(), "m");
    }
}
