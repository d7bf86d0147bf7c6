//! Domain model: typed records for the three resources, their enums, and
//! the in-process store each repository runs against.

use vstd::prelude::*;

pub mod application;
pub mod job;
pub mod user;

use application::Application;
use job::Job;
use user::User;

verus! {

/// Store for user records. Rows sit in insertion order; `next_id` is the
/// id the next created record receives.
pub struct UserStore {
    /// The rows, in natural (insertion) order.
    pub users: Vec<User>,
    /// Next server-assigned id; always above every stored id.
    pub next_id: i64,
}

impl View for UserStore {
    type V = Seq<User>;

    open spec fn view(&self) -> Seq<User> {
        self.users@
    }
}

impl UserStore {
    /// Well-formedness: ids are unique, positive and below `next_id`, and
    /// emails are unique, as the schema's constraints demand.
    pub open spec fn wf(&self) -> bool {
        &&& 1 <= self.next_id
        &&& self.users@.len() < self.next_id
        &&& (forall|i: int|
            0 <= i < self.users@.len() ==> 1 <= (#[trigger] self.users@[i]).id < self.next_id)
        &&& (forall|i: int, j: int|
            0 <= i < j < self.users@.len() ==> (#[trigger] self.users@[i]).id != (
            #[trigger] self.users@[j]).id)
        &&& (forall|i: int, j: int|
            0 <= i < j < self.users@.len() ==> (#[trigger] self.users@[i]).email@ != (
            #[trigger] self.users@[j]).email@)
    }

    /// An empty store.
    pub fn new() -> (r: UserStore)
        ensures
            r.wf(),
            r@ == Seq::<User>::empty(),
            r.next_id == 1,
    {
        UserStore { users: Vec::new(), next_id: 1 }
    }
}

/// Store for job records.
pub struct JobStore {
    /// The rows, in natural (insertion) order.
    pub jobs: Vec<Job>,
    /// Next server-assigned id; always above every stored id.
    pub next_id: i64,
}

impl View for JobStore {
    type V = Seq<Job>;

    open spec fn view(&self) -> Seq<Job> {
        self.jobs@
    }
}

impl JobStore {
    /// Well-formedness: ids are unique, positive and below `next_id`.
    pub open spec fn wf(&self) -> bool {
        &&& 1 <= self.next_id
        &&& self.jobs@.len() < self.next_id
        &&& (forall|i: int|
            0 <= i < self.jobs@.len() ==> 1 <= (#[trigger] self.jobs@[i]).id < self.next_id)
        &&& (forall|i: int, j: int|
            0 <= i < j < self.jobs@.len() ==> (#[trigger] self.jobs@[i]).id != (
            #[trigger] self.jobs@[j]).id)
    }

    /// An empty store.
    pub fn new() -> (r: JobStore)
        ensures
            r.wf(),
            r@ == Seq::<Job>::empty(),
            r.next_id == 1,
    {
        JobStore { jobs: Vec::new(), next_id: 1 }
    }
}

/// Store for application records.
pub struct ApplicationStore {
    /// The rows, in natural (insertion) order.
    pub applications: Vec<Application>,
    /// Next server-assigned id; always above every stored id.
    pub next_id: i64,
}

impl View for ApplicationStore {
    type V = Seq<Application>;

    open spec fn view(&self) -> Seq<Application> {
        self.applications@
    }
}

impl ApplicationStore {
    /// Well-formedness: ids are unique, positive and below `next_id`.
    pub open spec fn wf(&self) -> bool {
        &&& 1 <= self.next_id
        &&& self.applications@.len() < self.next_id
        &&& (forall|i: int|
            0 <= i < self.applications@.len() ==> 1 <= (#[trigger] self.applications@[i]).id
                < self.next_id)
        &&& (forall|i: int, j: int|
            0 <= i < j < self.applications@.len() ==> (#[trigger] self.applications@[i]).id != (
            #[trigger] self.applications@[j]).id)
    }

    /// An empty store.
    pub fn new() -> (r: ApplicationStore)
        ensures
            r.wf(),
            r@ == Seq::<Application>::empty(),
            r.next_id == 1,
    {
        ApplicationStore { applications: Vec::new(), next_id: 1 }
    }
}

} // verus!
