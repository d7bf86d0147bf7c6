//! Repository for `Application` records: CRUD, paginated listing and count
//! against an `ApplicationStore`.

use vstd::prelude::*;
use crate::db::RepoError;
use crate::models::ApplicationStore;
use crate::models::application::{Application, ApplicationCreateRequest, ApplicationStatus};
use crate::utils::spec_page;

verus! {

/// Whether some row of `s` carries `id`.
pub open spec fn spec_has_application(s: Seq<Application>, id: i64) -> bool {
    exists|i: int| 0 <= i < s.len() && (#[trigger] s[i]).id == id
}

/// The index of a row carrying `id` (meaningful when one exists; unique
/// when ids are unique).
pub open spec fn spec_application_index(s: Seq<Application>, id: i64) -> int {
    choose|i: int| 0 <= i < s.len() && (#[trigger] s[i]).id == id
}

/// The row of `s` carrying `id`, when one exists.
pub open spec fn spec_lookup_application(s: Seq<Application>, id: i64) -> Option<Application> {
    if spec_has_application(s, id) {
        Some(s[spec_application_index(s, id)])
    } else {
        None
    }
}

/// `s` without the row carrying `id`, order kept; `s` itself when no row
/// carries it.
pub open spec fn spec_remove_application(s: Seq<Application>, id: i64) -> Seq<Application> {
    if spec_has_application(s, id) {
        s.remove(spec_application_index(s, id))
    } else {
        s
    }
}

/// `s` with every row carrying `id` replaced by `v`, order kept.
pub open spec fn spec_replace_application(s: Seq<Application>, id: i64, v: Application) -> Seq<
    Application,
> {
    s.map_values(|u: Application| if u.id == id { v } else { u })
}

/// The record a creation payload becomes under id `id` at time `now`:
/// `applied_at` set to `now`, the status defaulting to pending.
pub open spec fn spec_new_application(req: ApplicationCreateRequest, id: i64, now: i64) -> Application {
    Application {
        id: id,
        job_seeker_id: req.job_seeker_id,
        job_id: req.job_id,
        cover_letter: req.cover_letter,
        resume: req.resume,
        status: (match req.status {
            Some(s) => s,
            None => ApplicationStatus::Pending,
        }),
        applied_at: now,
    }
}

/// Creating a record under a fresh id (the ensures of `create` append the
/// record with `id == next_id`, above every stored id) and then fetching
/// that id returns exactly the created record.
pub proof fn lemma_application_create_then_get(store: ApplicationStore, a: Application)
    requires
        store.wf(),
        store.next_id <= a.id,
    ensures
        spec_lookup_application(store@.push(a), a.id) == Some(a),
{
    let s = store@;
    let s2 = s.push(a);
    assert(s2[s.len() as int] == a);
    assert(spec_has_application(s2, a.id));
    let k = spec_application_index(s2, a.id);
    assert(0 <= k < s2.len() && s2[k].id == a.id);
    if k < s.len() {
        assert(s2[k] == s[k]);
        assert(s[k].id < store.next_id);
        assert(false);
    }
}

/// Deleting an id and then fetching it finds nothing; deleting an absent
/// id changes nothing (and `delete` never fails).
pub proof fn lemma_application_delete_then_get(store: ApplicationStore, id: i64)
    requires
        store.wf(),
    ensures
        spec_lookup_application(spec_remove_application(store@, id), id) is None,
        !spec_has_application(store@, id) ==> spec_remove_application(store@, id) == store@,
{
    let s = store@;
    if spec_has_application(s, id) {
        let j = spec_application_index(s, id);
        assert(0 <= j < s.len() && s[j].id == id);
        let r = s.remove(j);
        s.remove_ensures(j);
        assert forall|k: int| 0 <= k < s.len() && k != j implies (#[trigger] s[k]).id != id by {
            if k < j {
                assert(s[k].id != s[j].id);
            } else {
                assert(s[j].id != s[k].id);
            }
        };
        assert forall|k: int| 0 <= k < r.len() implies (#[trigger] r[k]).id != id by {
            if k < j {
                assert(r[k] == s[k]);
            } else {
                assert(r[k] == s[k + 1]);
            }
        };
        assert(!spec_has_application(r, id));
    }
}

/// The count moves exactly with the writes: creation adds one row,
/// deletion removes one exactly when the id was present, replacement
/// keeps the count. Listing takes the store immutably, so `limit` and
/// `offset` cannot touch the count.
pub proof fn lemma_application_count(store: ApplicationStore, a: Application, id: i64)
    requires
        store.wf(),
    ensures
        store@.push(a).len() == store@.len() + 1,
        spec_has_application(store@, id) ==> spec_remove_application(store@, id).len() == store@.len()
            - 1,
        !spec_has_application(store@, id) ==> spec_remove_application(store@, id) == store@,
        spec_replace_application(store@, id, a).len() == store@.len(),
{
    let s = store@;
    if spec_has_application(s, id) {
        let k = spec_application_index(s, id);
        assert(0 <= k < s.len() && s[k].id == id);
        s.remove_ensures(k);
    }
}

/// Index of the row carrying `id`, by linear scan.
fn find_application_index(applications: &Vec<Application>, id: i64) -> (r: Option<usize>)
    ensures
        (match r {
            Some(i) => i < applications@.len() && applications@[i as int].id == id,
            None => forall|k: int|
                0 <= k < applications@.len() ==> (#[trigger] applications@[k]).id != id,
        }),
{
    let mut i: usize = 0;
    while i < applications.len()
        invariant
            i <= applications@.len(),
            forall|k: int| 0 <= k < i ==> (#[trigger] applications@[k]).id != id,
        decreases applications@.len() - i,
    {
        if applications[i].id == id {
            return Some(i);
        }
        i = i + 1;
    }
    None
}

/// A bounded, offset-based scan in natural row order.
pub fn get_all(store: &ApplicationStore, limit: i64, offset: i64) -> (r: Vec<Application>)
    requires
        store.wf(),
        limit >= 0,
        offset >= 0,
    ensures
        r@ == spec_page(store@, limit as int, offset as int),
        r@.len() <= limit,
{
    let mut items: Vec<Application> = Vec::new();
    let mut i: usize = 0;
    proof {
        assert(store.applications@.subrange(0, 0) =~= Seq::<Application>::empty());
        assert(items@ =~= spec_page(
            store.applications@.subrange(0, 0),
            limit as int,
            offset as int,
        ));
    }
    while i < store.applications.len()
        invariant
            store.wf(),
            limit >= 0,
            offset >= 0,
            i <= store.applications@.len(),
            items@ == spec_page(
                store.applications@.subrange(0, i as int),
                limit as int,
                offset as int,
            ),
        decreases store.applications@.len() - i,
    {
        proof {
            assert(store.applications@.len() < i64::MAX);
        }
        if i as i64 >= offset && (items.len() as i64) < limit {
            items.push(store.applications[i].clone());
        }
        proof {
            let s = store.applications@;
            let ii = i as int;
            assert(s.subrange(0, ii + 1) =~= s.subrange(0, ii).push(s[ii]));
            assert(items@ =~= spec_page(s.subrange(0, ii + 1), limit as int, offset as int));
        }
        i = i + 1;
    }
    proof {
        assert(store.applications@.subrange(0, store.applications@.len() as int)
            =~= store.applications@);
    }
    items
}

/// Total row count, unfiltered.
pub fn get_total_count(store: &ApplicationStore) -> (r: i64)
    requires
        store.wf(),
    ensures
        r == store@.len(),
{
    store.applications.len() as i64
}

/// The row carrying `id`, or nothing when no row does.
pub fn get_by_id(store: &ApplicationStore, id: i64) -> (r: Option<Application>)
    requires
        store.wf(),
    ensures
        r == spec_lookup_application(store@, id),
{
    match find_application_index(&store.applications, id) {
        Some(i) => {
            let u = store.applications[i].clone();
            proof {
                let s = store@;
                assert(spec_has_application(s, id));
                let j = spec_application_index(s, id);
                assert(0 <= j < s.len() && s[j].id == id);
                assert(j == i as int);
            }
            Some(u)
        },
        None => {
            proof {
                assert(!spec_has_application(store@, id));
            }
            None
        },
    }
}

/// Insert a new row built from the payload: the store assigns the id, sets
/// `applied_at` to `now`, and defaults the status to pending. Fails only
/// when no id is left.
pub fn create(store: &mut ApplicationStore, application: ApplicationCreateRequest, now: i64) -> (r:
    Result<Application, RepoError>)
    requires
        old(store).wf(),
    ensures
        final(store).wf(),
        (match r {
            Ok(a) => {
                &&& old(store).next_id < i64::MAX
                &&& a == spec_new_application(application, old(store).next_id, now)
                &&& final(store)@ == old(store)@.push(a)
                &&& final(store).next_id == old(store).next_id + 1
            },
            Err(e) => {
                &&& e == RepoError::CapacityExhausted
                &&& old(store).next_id == i64::MAX
                &&& *final(store) == *old(store)
            },
        }),
{
    if store.next_id == i64::MAX {
        return Err(RepoError::CapacityExhausted);
    }
    let id = store.next_id;
    let ApplicationCreateRequest { job_seeker_id, job_id, cover_letter, resume, status } =
        application;
    let a = Application {
        id,
        job_seeker_id,
        job_id,
        cover_letter,
        resume,
        status: (match status {
            Some(s) => s,
            None => ApplicationStatus::Pending,
        }),
        applied_at: now,
    };
    let result = a.clone();
    store.applications.push(a);
    store.next_id = id + 1;
    proof {
        let s_old = old(store)@;
        let s_new = store@;
        assert(s_new == s_old.push(result));
        assert forall|a2: int, b: int|
            0 <= a2 < b < s_new.len() implies (#[trigger] s_new[a2]).id != (
        #[trigger] s_new[b]).id by {
            if b < s_old.len() {
                assert(s_new[a2] == s_old[a2] && s_new[b] == s_old[b]);
            } else {
                assert(s_new[b] == result);
                assert(s_new[a2] == s_old[a2]);
            }
        };
        assert forall|k: int| 0 <= k < s_new.len() implies 1 <= (#[trigger] s_new[k]).id
            < store.next_id by {
            if k < s_old.len() {
                assert(s_new[k] == s_old[k]);
            } else {
                assert(s_new[k] == result);
            }
        };
    }
    Ok(result)
}

/// Replace the row carrying `id` with `application` (the handler supplies
/// the already-merged record). A missing row is a no-op, as an `UPDATE`
/// matching nothing is.
pub fn update(store: &mut ApplicationStore, id: i64, application: Application)
    requires
        old(store).wf(),
        application.id == id,
    ensures
        final(store).wf(),
        final(store).next_id == old(store).next_id,
        final(store)@ == spec_replace_application(old(store)@, id, application),
{
    let idx = match find_application_index(&store.applications, id) {
        Some(i) => i,
        None => {
            proof {
                assert(!spec_has_application(store@, id));
                assert(store@.map_values(
                    |u: Application|
                        if u.id == id {
                            application
                        } else {
                            u
                        },
                ) =~= store@);
            }
            return;
        },
    };
    store.applications[idx] = application;
    proof {
        let s_old = old(store)@;
        let s_new = store@;
        assert(s_new == s_old.update(idx as int, application));
        assert forall|k: int| 0 <= k < s_old.len() && k != idx implies (
        #[trigger] s_old[k]).id != id by {
            if k < idx as int {
                assert(s_old[k].id != s_old[idx as int].id);
            } else {
                assert(s_old[idx as int].id != s_old[k].id);
            }
        };
        assert(s_new =~= spec_replace_application(s_old, id, application));
        assert forall|a: int, b: int| 0 <= a < b < s_new.len() implies (#[trigger] s_new[a]).id != (
        #[trigger] s_new[b]).id by {
            assert(s_old[a].id != s_old[b].id);
            if a == idx as int {
                assert(s_new[a].id == id && s_new[b] == s_old[b]);
            } else if b == idx as int {
                assert(s_new[b].id == id && s_new[a] == s_old[a]);
            } else {
                assert(s_new[a] == s_old[a] && s_new[b] == s_old[b]);
            }
        };
        assert forall|k: int| 0 <= k < s_new.len() implies 1 <= (#[trigger] s_new[k]).id
            < store.next_id by {
            if k == idx as int {
                assert(s_new[k].id == s_old[k].id);
            } else {
                assert(s_new[k] == s_old[k]);
            }
        };
    }
}

/// Delete the row carrying `id`. Deleting an absent id succeeds and
/// changes nothing.
pub fn delete(store: &mut ApplicationStore, id: i64)
    requires
        old(store).wf(),
    ensures
        final(store).wf(),
        final(store).next_id == old(store).next_id,
        final(store)@ == spec_remove_application(old(store)@, id),
{
    match find_application_index(&store.applications, id) {
        Some(i) => {
            proof {
                let s = store@;
                assert(spec_has_application(s, id));
                let j = spec_application_index(s, id);
                assert(0 <= j < s.len() && s[j].id == id);
                assert(j == i as int);
            }
            store.applications.remove(i);
            proof {
                let s_old = old(store)@;
                let s_new = store@;
                s_old.remove_ensures(i as int);
                assert forall|a: int, b: int|
                    0 <= a < b < s_new.len() implies (#[trigger] s_new[a]).id != (
                #[trigger] s_new[b]).id by {
                    if b < i as int {
                        assert(s_new[a] == s_old[a] && s_new[b] == s_old[b]);
                    } else if a < i as int {
                        assert(s_new[a] == s_old[a] && s_new[b] == s_old[b + 1]);
                    } else {
                        assert(s_new[a] == s_old[a + 1] && s_new[b] == s_old[b + 1]);
                    }
                };
                assert forall|k: int| 0 <= k < s_new.len() implies 1 <= (#[trigger] s_new[k]).id
                    < store.next_id by {
                    if k < i as int {
                        assert(s_new[k] == s_old[k]);
                    } else {
                        assert(s_new[k] == s_old[k + 1]);
                    }
                };
            }
        },
        None => {
            proof {
                assert(!spec_has_application(store@, id));
            }
        },
    }
}

} // verus!
