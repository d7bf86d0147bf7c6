//! Core of a job-board service: typed domain records for users, jobs and
//! applications, the codec that maps them onto storage rows, per-resource
//! repositories over in-process stores, and the request-handling logic with
//! its pagination and partial-update rules.

pub mod codec;
pub mod db;
pub mod models;
pub mod routes;
pub mod utils;
