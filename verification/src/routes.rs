//! Request handlers, one per (resource, operation) pair.

pub mod application_route;
pub mod job;
pub mod user;
