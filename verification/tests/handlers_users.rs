//! User handlers over a store: the full create / get / update / delete
//! life cycle, creation validation, the duplicate-email conflict, and the
//! empty-update behavior.

use job_board::models::user::{UserRole, UserUpdateRequest};
use job_board::models::UserStore;
use job_board::routes::user::{
    create_user, delete_user, get_user_by_id, get_users, update_user, UserQuery,
};
use job_board::utils::ErrorResponse;

const T1: i64 = 1726500600;
const T2: i64 = 1726501000;

fn payload(name: &str, email: &str, role: Option<UserRole>) -> UserUpdateRequest {
    UserUpdateRequest {
        name: Some(name.to_owned()),
        email: Some(email.to_owned()),
        password: Some("h".to_owned()),
        role,
    }
}

#[test]
fn user_life_cycle() {
    let mut store = UserStore::new();

    // Create: 201 with the role echoed and timestamps populated.
    let created = create_user(
        &mut store,
        payload("John Doe", "john@x.com", Some(UserRole::JobSeeker)),
        T1,
    )
    .unwrap();
    assert_eq!(created.id, 1);
    assert_eq!(created.name, "John Doe");
    assert_eq!(created.email, "john@x.com");
    assert_eq!(created.password, "h");
    assert_eq!(created.role, UserRole::JobSeeker);
    assert_eq!(created.created_at, T1);
    assert_eq!(created.updated_at, T1);

    // Get: the identical record.
    let got = get_user_by_id(&store, created.id).unwrap();
    assert_eq!(got.id, created.id);
    assert_eq!(got.name, created.name);
    assert_eq!(got.email, created.email);
    assert_eq!(got.password, created.password);
    assert_eq!(got.role, created.role);
    assert_eq!(got.created_at, created.created_at);
    assert_eq!(got.updated_at, created.updated_at);

    // Partial update: only the role changes; updated_at is refreshed.
    let req = UserUpdateRequest {
        name: None,
        email: None,
        password: None,
        role: Some(UserRole::Employer),
    };
    let updated = update_user(&mut store, created.id, &req, T2).unwrap();
    assert_eq!(updated.role, UserRole::Employer);
    assert_eq!(updated.name, "John Doe");
    assert_eq!(updated.email, "john@x.com");
    assert_eq!(updated.password, "h");
    assert_eq!(updated.created_at, T1);
    assert_eq!(updated.updated_at, T2);

    // Delete, then get: absent.
    delete_user(&mut store, created.id);
    let err = get_user_by_id(&store, created.id).unwrap_err();
    assert_eq!(err.status_code(), 404);
}

#[test]
fn create_user_rejects_missing_fields() {
    let mut store = UserStore::new();
    let req = UserUpdateRequest {
        name: Some("No Email".to_owned()),
        email: None,
        password: Some("h".to_owned()),
        role: None,
    };
    let err = create_user(&mut store, req, T1).unwrap_err();
    assert!(matches!(err, ErrorResponse::BadRequest(_)));
    assert_eq!(err.status_code(), 400);
    assert_eq!(get_users(&store, &UserQuery { limit: None, offset: None }).count, 0);
}

#[test]
fn create_user_defaults_role_to_job_seeker() {
    let mut store = UserStore::new();
    let created = create_user(&mut store, payload("A", "a@x.com", None), T1).unwrap();
    assert_eq!(created.role, UserRole::JobSeeker);
}

#[test]
fn create_user_rejects_duplicate_email() {
    let mut store = UserStore::new();
    create_user(&mut store, payload("A", "a@x.com", None), T1).unwrap();
    let err = create_user(&mut store, payload("B", "a@x.com", None), T1).unwrap_err();
    assert!(matches!(err, ErrorResponse::Conflict(_)));
    assert_eq!(err.status_code(), 409);
    assert_eq!(get_users(&store, &UserQuery { limit: None, offset: None }).count, 1);
}

#[test]
fn update_user_rejects_anothers_email() {
    let mut store = UserStore::new();
    let a = create_user(&mut store, payload("A", "a@x.com", None), T1).unwrap();
    let b = create_user(&mut store, payload("B", "b@x.com", None), T1).unwrap();
    let req = UserUpdateRequest {
        name: None,
        email: Some("a@x.com".to_owned()),
        password: None,
        role: None,
    };
    let err = update_user(&mut store, b.id, &req, T2).unwrap_err();
    assert!(matches!(err, ErrorResponse::Conflict(_)));
    // The record is untouched.
    assert_eq!(get_user_by_id(&store, b.id).unwrap().email, "b@x.com");
    assert_eq!(get_user_by_id(&store, a.id).unwrap().email, "a@x.com");
}

#[test]
fn update_user_keeps_own_email() {
    let mut store = UserStore::new();
    let a = create_user(&mut store, payload("A", "a@x.com", None), T1).unwrap();
    let req = UserUpdateRequest {
        name: Some("A2".to_owned()),
        email: Some("a@x.com".to_owned()),
        password: None,
        role: None,
    };
    let updated = update_user(&mut store, a.id, &req, T2).unwrap();
    assert_eq!(updated.name, "A2");
    assert_eq!(updated.email, "a@x.com");
}

#[test]
fn update_user_on_absent_id_is_not_found() {
    let mut store = UserStore::new();
    let req = UserUpdateRequest { name: None, email: None, password: None, role: None };
    let err = update_user(&mut store, 42, &req, T1).unwrap_err();
    assert!(matches!(err, ErrorResponse::NotFound(_)));
}

#[test]
fn empty_update_keeps_user_fields_but_refreshes_updated_at() {
    let mut store = UserStore::new();
    let created = create_user(&mut store, payload("A", "a@x.com", None), T1).unwrap();
    let req = UserUpdateRequest { name: None, email: None, password: None, role: None };
    let updated = update_user(&mut store, created.id, &req, T2).unwrap();
    assert_eq!(updated.name, created.name);
    assert_eq!(updated.email, created.email);
    assert_eq!(updated.password, created.password);
    assert_eq!(updated.role, created.role);
    assert_eq!(updated.created_at, T1);
    assert_eq!(updated.updated_at, T2);
}

#[test]
fn delete_user_is_idempotent_on_absent_ids() {
    let mut store = UserStore::new();
    let a = create_user(&mut store, payload("A", "a@x.com", None), T1).unwrap();
    delete_user(&mut store, 999);
    assert_eq!(get_users(&store, &UserQuery { limit: None, offset: None }).count, 1);
    delete_user(&mut store, a.id);
    delete_user(&mut store, a.id);
    assert_eq!(get_users(&store, &UserQuery { limit: None, offset: None }).count, 0);
}

#[test]
fn create_user_fails_when_no_id_is_left() {
    let mut store = UserStore::new();
    store.next_id = i64::MAX;
    let err = create_user(&mut store, payload("A", "a@x.com", None), T1).unwrap_err();
    assert!(matches!(err, ErrorResponse::InternalError(_)));
    assert_eq!(err.status_code(), 500);
    assert_eq!(get_users(&store, &UserQuery { limit: None, offset: None }).count, 0);
}

#[test]
fn count_tracks_creations_and_deletions() {
    let mut store = UserStore::new();
    let mut ids = Vec::new();
    for i in 0..3 {
        let u = create_user(
            &mut store,
            payload(&format!("U{}", i), &format!("u{}@x.com", i), None),
            T1,
        )
        .unwrap();
        ids.push(u.id);
    }
    assert_eq!(get_users(&store, &UserQuery { limit: None, offset: None }).count, 3);
    // The count ignores limit and offset.
    assert_eq!(get_users(&store, &UserQuery { limit: Some(1), offset: Some(2) }).count, 3);
    delete_user(&mut store, ids[1]);
    assert_eq!(get_users(&store, &UserQuery { limit: Some(1), offset: Some(7) }).count, 2);
    // Ids are never reused.
    let d = create_user(&mut store, payload("D", "d@x.com", None), T1).unwrap();
    assert_eq!(d.id, 4);
}
