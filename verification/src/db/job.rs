//! Repository for `Job` records: CRUD, paginated listing and count against
//! a `JobStore`.

use vstd::prelude::*;
use crate::db::RepoError;
use crate::models::JobStore;
use crate::models::job::{Job, JobCreateRequest};
use crate::utils::spec_page;

verus! {

/// Whether some row of `s` carries `id`.
pub open spec fn spec_has_job(s: Seq<Job>, id: i64) -> bool {
    exists|i: int| 0 <= i < s.len() && (#[trigger] s[i]).id == id
}

/// The index of a row carrying `id` (meaningful when one exists; unique
/// when ids are unique).
pub open spec fn spec_job_index(s: Seq<Job>, id: i64) -> int {
    choose|i: int| 0 <= i < s.len() && (#[trigger] s[i]).id == id
}

/// The row of `s` carrying `id`, when one exists.
pub open spec fn spec_lookup_job(s: Seq<Job>, id: i64) -> Option<Job> {
    if spec_has_job(s, id) {
        Some(s[spec_job_index(s, id)])
    } else {
        None
    }
}

/// `s` without the row carrying `id`, order kept; `s` itself when no row
/// carries it.
pub open spec fn spec_remove_job(s: Seq<Job>, id: i64) -> Seq<Job> {
    if spec_has_job(s, id) {
        s.remove(spec_job_index(s, id))
    } else {
        s
    }
}

/// `s` with every row carrying `id` replaced by `v`, order kept.
pub open spec fn spec_replace_job(s: Seq<Job>, id: i64, v: Job) -> Seq<Job> {
    s.map_values(|u: Job| if u.id == id { v } else { u })
}

/// The record a creation payload becomes under id `id` at time `now`:
/// both timestamps set to `now`.
pub open spec fn spec_new_job(req: JobCreateRequest, id: i64, now: i64) -> Job {
    Job {
        id: id,
        employer_id: req.employer_id,
        title: req.title,
        description: req.description,
        location: req.location,
        salary: req.salary,
        employment_type: req.employment_type,
        posted_at: now,
        updated_at: now,
    }
}

/// Creating a record under a fresh id (the ensures of `create` append the
/// record with `id == next_id`, above every stored id) and then fetching
/// that id returns exactly the created record.
pub proof fn lemma_job_create_then_get(store: JobStore, j: Job)
    requires
        store.wf(),
        store.next_id <= j.id,
    ensures
        spec_lookup_job(store@.push(j), j.id) == Some(j),
{
    let s = store@;
    let s2 = s.push(j);
    assert(s2[s.len() as int] == j);
    assert(spec_has_job(s2, j.id));
    let k = spec_job_index(s2, j.id);
    assert(0 <= k < s2.len() && s2[k].id == j.id);
    if k < s.len() {
        assert(s2[k] == s[k]);
        assert(s[k].id < store.next_id);
        assert(false);
    }
}

/// Deleting an id and then fetching it finds nothing; deleting an absent
/// id changes nothing (and `delete` never fails).
pub proof fn lemma_job_delete_then_get(store: JobStore, id: i64)
    requires
        store.wf(),
    ensures
        spec_lookup_job(spec_remove_job(store@, id), id) is None,
        !spec_has_job(store@, id) ==> spec_remove_job(store@, id) == store@,
{
    let s = store@;
    if spec_has_job(s, id) {
        let j = spec_job_index(s, id);
        assert(0 <= j < s.len() && s[j].id == id);
        let r = s.remove(j);
        s.remove_ensures(j);
        assert forall|k: int| 0 <= k < s.len() && k != j implies (#[trigger] s[k]).id != id by {
            if k < j {
                assert(s[k].id != s[j].id);
            } else {
                assert(s[j].id != s[k].id);
            }
        };
        assert forall|k: int| 0 <= k < r.len() implies (#[trigger] r[k]).id != id by {
            if k < j {
                assert(r[k] == s[k]);
            } else {
                assert(r[k] == s[k + 1]);
            }
        };
        assert(!spec_has_job(r, id));
    }
}

/// The count moves exactly with the writes: creation adds one row,
/// deletion removes one exactly when the id was present, replacement
/// keeps the count. Listing takes the store immutably, so `limit` and
/// `offset` cannot touch the count.
pub proof fn lemma_job_count(store: JobStore, j: Job, id: i64)
    requires
        store.wf(),
    ensures
        store@.push(j).len() == store@.len() + 1,
        spec_has_job(store@, id) ==> spec_remove_job(store@, id).len() == store@.len() - 1,
        !spec_has_job(store@, id) ==> spec_remove_job(store@, id) == store@,
        spec_replace_job(store@, id, j).len() == store@.len(),
{
    let s = store@;
    if spec_has_job(s, id) {
        let k = spec_job_index(s, id);
        assert(0 <= k < s.len() && s[k].id == id);
        s.remove_ensures(k);
    }
}

/// Index of the row carrying `id`, by linear scan.
fn find_job_index(jobs: &Vec<Job>, id: i64) -> (r: Option<usize>)
    ensures
        (match r {
            Some(i) => i < jobs@.len() && jobs@[i as int].id == id,
            None => forall|k: int| 0 <= k < jobs@.len() ==> (#[trigger] jobs@[k]).id != id,
        }),
{
    let mut i: usize = 0;
    while i < jobs.len()
        invariant
            i <= jobs@.len(),
            forall|k: int| 0 <= k < i ==> (#[trigger] jobs@[k]).id != id,
        decreases jobs@.len() - i,
    {
        if jobs[i].id == id {
            return Some(i);
        }
        i = i + 1;
    }
    None
}

/// A bounded, offset-based scan in natural row order.
pub fn get_all(store: &JobStore, limit: i64, offset: i64) -> (r: Vec<Job>)
    requires
        store.wf(),
        limit >= 0,
        offset >= 0,
    ensures
        r@ == spec_page(store@, limit as int, offset as int),
        r@.len() <= limit,
{
    let mut items: Vec<Job> = Vec::new();
    let mut i: usize = 0;
    proof {
        assert(store.jobs@.subrange(0, 0) =~= Seq::<Job>::empty());
        assert(items@ =~= spec_page(store.jobs@.subrange(0, 0), limit as int, offset as int));
    }
    while i < store.jobs.len()
        invariant
            store.wf(),
            limit >= 0,
            offset >= 0,
            i <= store.jobs@.len(),
            items@ == spec_page(store.jobs@.subrange(0, i as int), limit as int, offset as int),
        decreases store.jobs@.len() - i,
    {
        proof {
            assert(store.jobs@.len() < i64::MAX);
        }
        if i as i64 >= offset && (items.len() as i64) < limit {
            items.push(store.jobs[i].clone());
        }
        proof {
            let s = store.jobs@;
            let ii = i as int;
            assert(s.subrange(0, ii + 1) =~= s.subrange(0, ii).push(s[ii]));
            assert(items@ =~= spec_page(s.subrange(0, ii + 1), limit as int, offset as int));
        }
        i = i + 1;
    }
    proof {
        assert(store.jobs@.subrange(0, store.jobs@.len() as int) =~= store.jobs@);
    }
    items
}

/// Total row count, unfiltered.
pub fn get_total_count(store: &JobStore) -> (r: i64)
    requires
        store.wf(),
    ensures
        r == store@.len(),
{
    store.jobs.len() as i64
}

/// The row carrying `id`, or nothing when no row does.
pub fn get_by_id(store: &JobStore, id: i64) -> (r: Option<Job>)
    requires
        store.wf(),
    ensures
        r == spec_lookup_job(store@, id),
{
    match find_job_index(&store.jobs, id) {
        Some(i) => {
            let u = store.jobs[i].clone();
            proof {
                let s = store@;
                assert(spec_has_job(s, id));
                let j = spec_job_index(s, id);
                assert(0 <= j < s.len() && s[j].id == id);
                assert(j == i as int);
            }
            Some(u)
        },
        None => {
            proof {
                assert(!spec_has_job(store@, id));
            }
            None
        },
    }
}

/// Insert a new row built from the payload: the store assigns the id and
/// sets both timestamps to `now`. Fails only when no id is left.
pub fn create(store: &mut JobStore, job: JobCreateRequest, now: i64) -> (r: Result<Job, RepoError>)
    requires
        old(store).wf(),
    ensures
        final(store).wf(),
        (match r {
            Ok(j) => {
                &&& old(store).next_id < i64::MAX
                &&& j == spec_new_job(job, old(store).next_id, now)
                &&& final(store)@ == old(store)@.push(j)
                &&& final(store).next_id == old(store).next_id + 1
            },
            Err(e) => {
                &&& e == RepoError::CapacityExhausted
                &&& old(store).next_id == i64::MAX
                &&& *final(store) == *old(store)
            },
        }),
{
    if store.next_id == i64::MAX {
        return Err(RepoError::CapacityExhausted);
    }
    let id = store.next_id;
    let JobCreateRequest { employer_id, title, description, location, salary, employment_type } =
        job;
    let j = Job {
        id,
        employer_id,
        title,
        description,
        location,
        salary,
        employment_type,
        posted_at: now,
        updated_at: now,
    };
    let result = j.clone();
    store.jobs.push(j);
    store.next_id = id + 1;
    proof {
        let s_old = old(store)@;
        let s_new = store@;
        assert(s_new == s_old.push(result));
        assert forall|a: int, b: int| 0 <= a < b < s_new.len() implies (#[trigger] s_new[a]).id != (
        #[trigger] s_new[b]).id by {
            if b < s_old.len() {
                assert(s_new[a] == s_old[a] && s_new[b] == s_old[b]);
            } else {
                assert(s_new[b] == result);
                assert(s_new[a] == s_old[a]);
            }
        };
        assert forall|k: int| 0 <= k < s_new.len() implies 1 <= (#[trigger] s_new[k]).id
            < store.next_id by {
            if k < s_old.len() {
                assert(s_new[k] == s_old[k]);
            } else {
                assert(s_new[k] == result);
            }
        };
    }
    Ok(result)
}

/// Replace the row carrying `id` with `job` (the handler supplies the
/// already-merged record). A missing row is a no-op, as an `UPDATE`
/// matching nothing is.
pub fn update(store: &mut JobStore, id: i64, job: Job)
    requires
        old(store).wf(),
        job.id == id,
    ensures
        final(store).wf(),
        final(store).next_id == old(store).next_id,
        final(store)@ == spec_replace_job(old(store)@, id, job),
{
    let idx = match find_job_index(&store.jobs, id) {
        Some(i) => i,
        None => {
            proof {
                assert(!spec_has_job(store@, id));
                assert(store@.map_values(
                    |u: Job|
                        if u.id == id {
                            job
                        } else {
                            u
                        },
                ) =~= store@);
            }
            return;
        },
    };
    store.jobs[idx] = job;
    proof {
        let s_old = old(store)@;
        let s_new = store@;
        assert(s_new == s_old.update(idx as int, job));
        assert forall|k: int| 0 <= k < s_old.len() && k != idx implies (
        #[trigger] s_old[k]).id != id by {
            if k < idx as int {
                assert(s_old[k].id != s_old[idx as int].id);
            } else {
                assert(s_old[idx as int].id != s_old[k].id);
            }
        };
        assert(s_new =~= spec_replace_job(s_old, id, job));
        assert forall|a: int, b: int| 0 <= a < b < s_new.len() implies (#[trigger] s_new[a]).id != (
        #[trigger] s_new[b]).id by {
            assert(s_old[a].id != s_old[b].id);
            if a == idx as int {
                assert(s_new[a].id == id && s_new[b] == s_old[b]);
            } else if b == idx as int {
                assert(s_new[b].id == id && s_new[a] == s_old[a]);
            } else {
                assert(s_new[a] == s_old[a] && s_new[b] == s_old[b]);
            }
        };
        assert forall|k: int| 0 <= k < s_new.len() implies 1 <= (#[trigger] s_new[k]).id
            < store.next_id by {
            if k == idx as int {
                assert(s_new[k].id == s_old[k].id);
            } else {
                assert(s_new[k] == s_old[k]);
            }
        };
    }
}

/// Delete the row carrying `id`. Deleting an absent id succeeds and
/// changes nothing.
pub fn delete(store: &mut JobStore, id: i64)
    requires
        old(store).wf(),
    ensures
        final(store).wf(),
        final(store).next_id == old(store).next_id,
        final(store)@ == spec_remove_job(old(store)@, id),
{
    match find_job_index(&store.jobs, id) {
        Some(i) => {
            proof {
                let s = store@;
                assert(spec_has_job(s, id));
                let j = spec_job_index(s, id);
                assert(0 <= j < s.len() && s[j].id == id);
                assert(j == i as int);
            }
            store.jobs.remove(i);
            proof {
                let s_old = old(store)@;
                let s_new = store@;
                s_old.remove_ensures(i as int);
                assert forall|a: int, b: int|
                    0 <= a < b < s_new.len() implies (#[trigger] s_new[a]).id != (
                #[trigger] s_new[b]).id by {
                    if b < i as int {
                        assert(s_new[a] == s_old[a] && s_new[b] == s_old[b]);
                    } else if a < i as int {
                        assert(s_new[a] == s_old[a] && s_new[b] == s_old[b + 1]);
                    } else {
                        assert(s_new[a] == s_old[a + 1] && s_new[b] == s_old[b + 1]);
                    }
                };
                assert forall|k: int| 0 <= k < s_new.len() implies 1 <= (#[trigger] s_new[k]).id
                    < store.next_id by {
                    if k < i as int {
                        assert(s_new[k] == s_old[k]);
                    } else {
                        assert(s_new[k] == s_old[k + 1]);
                    }
                };
            }
        },
        None => {
            proof {
                assert(!spec_has_job(store@, id));
            }
        },
    }
}

} // verus!
