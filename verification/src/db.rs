//! Per-resource repositories: CRUD operations plus paginated listing and
//! count, each against its in-process store.

use vstd::prelude::*;

pub mod application_db;
pub mod job;
pub mod user_db;

verus! {

/// Failure of a repository write.
#[derive(Clone, Copy, PartialEq, Eq, Structural, Debug)]
pub enum RepoError {
    /// A required field of the creation payload is absent.
    MissingField,
    /// The write would duplicate a unique column (a user's email).
    DuplicateEmail,
    /// The store has no id left to assign.
    CapacityExhausted,
}

} // verus!
