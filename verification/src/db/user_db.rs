//! Repository for `User` records: CRUD, paginated listing and count
//! against a `UserStore`, with the store's uniqueness constraints (ids and
//! emails) enforced on every write.

use vstd::prelude::*;
use crate::codec::str_eq;
use crate::db::RepoError;
use crate::models::UserStore;
use crate::models::user::{User, UserRole, UserUpdateRequest};
use crate::utils::spec_page;

verus! {

/// Whether some row of `s` carries `id`.
pub open spec fn spec_has_user(s: Seq<User>, id: i64) -> bool {
    exists|i: int| 0 <= i < s.len() && (#[trigger] s[i]).id == id
}

/// The index of a row carrying `id` (meaningful when one exists; unique
/// when ids are unique).
pub open spec fn spec_user_index(s: Seq<User>, id: i64) -> int {
    choose|i: int| 0 <= i < s.len() && (#[trigger] s[i]).id == id
}

/// The row of `s` carrying `id`, when one exists.
pub open spec fn spec_lookup_user(s: Seq<User>, id: i64) -> Option<User> {
    if spec_has_user(s, id) {
        Some(s[spec_user_index(s, id)])
    } else {
        None
    }
}

/// `s` without the row carrying `id`, order kept; `s` itself when no row
/// carries it.
pub open spec fn spec_remove_user(s: Seq<User>, id: i64) -> Seq<User> {
    if spec_has_user(s, id) {
        s.remove(spec_user_index(s, id))
    } else {
        s
    }
}

/// `s` with every row carrying `id` replaced by `v`, order kept.
pub open spec fn spec_replace_user(s: Seq<User>, id: i64, v: User) -> Seq<User> {
    s.map_values(|u: User| if u.id == id { v } else { u })
}

/// Whether some row of `s` uses `email`.
pub open spec fn spec_email_taken(s: Seq<User>, email: Seq<char>) -> bool {
    exists|i: int| 0 <= i < s.len() && (#[trigger] s[i]).email@ == email
}

/// Whether a row of `s` other than the one carrying `id` uses `email`.
pub open spec fn spec_email_taken_by_other(s: Seq<User>, email: Seq<char>, id: i64) -> bool {
    exists|i: int| 0 <= i < s.len() && (#[trigger] s[i]).email@ == email && s[i].id != id
}

/// The record a creation payload becomes under id `id` at time `now`:
/// both timestamps set to `now`, the role defaulting to job seeker.
pub open spec fn spec_new_user(req: UserUpdateRequest, id: i64, now: i64) -> User {
    User {
        id: id,
        name: req.name.unwrap(),
        email: req.email.unwrap(),
        password: req.password.unwrap(),
        role: (match req.role {
            Some(r) => r,
            None => UserRole::JobSeeker,
        }),
        created_at: now,
        updated_at: now,
    }
}

/// Creating a record under a fresh id (the ensures of `create` append the
/// record with `id == next_id`, above every stored id) and then fetching
/// that id returns exactly the created record.
pub proof fn lemma_user_create_then_get(store: UserStore, u: User)
    requires
        store.wf(),
        store.next_id <= u.id,
    ensures
        spec_lookup_user(store@.push(u), u.id) == Some(u),
{
    let s = store@;
    let s2 = s.push(u);
    assert(s2[s.len() as int] == u);
    assert(spec_has_user(s2, u.id));
    let j = spec_user_index(s2, u.id);
    assert(0 <= j < s2.len() && s2[j].id == u.id);
    if j < s.len() {
        assert(s2[j] == s[j]);
        assert(s[j].id < store.next_id);
        assert(false);
    }
}

/// Deleting an id and then fetching it finds nothing; deleting an absent
/// id changes nothing (and `delete` never fails).
pub proof fn lemma_user_delete_then_get(store: UserStore, id: i64)
    requires
        store.wf(),
    ensures
        spec_lookup_user(spec_remove_user(store@, id), id) is None,
        !spec_has_user(store@, id) ==> spec_remove_user(store@, id) == store@,
{
    let s = store@;
    if spec_has_user(s, id) {
        let j = spec_user_index(s, id);
        assert(0 <= j < s.len() && s[j].id == id);
        let r = s.remove(j);
        s.remove_ensures(j);
        assert forall|k: int| 0 <= k < s.len() && k != j implies (#[trigger] s[k]).id != id by {
            if k < j {
                assert(s[k].id != s[j].id);
            } else {
                assert(s[j].id != s[k].id);
            }
        };
        assert forall|k: int| 0 <= k < r.len() implies (#[trigger] r[k]).id != id by {
            if k < j {
                assert(r[k] == s[k]);
            } else {
                assert(r[k] == s[k + 1]);
            }
        };
        assert(!spec_has_user(r, id));
    }
}

/// The count moves exactly with the writes: creation adds one row,
/// deletion removes one exactly when the id was present, replacement
/// keeps the count. Listing takes the store immutably, so `limit` and
/// `offset` cannot touch the count.
pub proof fn lemma_user_count(store: UserStore, u: User, id: i64)
    requires
        store.wf(),
    ensures
        store@.push(u).len() == store@.len() + 1,
        spec_has_user(store@, id) ==> spec_remove_user(store@, id).len() == store@.len() - 1,
        !spec_has_user(store@, id) ==> spec_remove_user(store@, id) == store@,
        spec_replace_user(store@, id, u).len() == store@.len(),
{
    let s = store@;
    if spec_has_user(s, id) {
        let j = spec_user_index(s, id);
        assert(0 <= j < s.len() && s[j].id == id);
        s.remove_ensures(j);
    }
}

/// Index of the row carrying `id`, by linear scan.
fn find_user_index(users: &Vec<User>, id: i64) -> (r: Option<usize>)
    ensures
        (match r {
            Some(i) => i < users@.len() && users@[i as int].id == id,
            None => forall|k: int| 0 <= k < users@.len() ==> (#[trigger] users@[k]).id != id,
        }),
{
    let mut i: usize = 0;
    while i < users.len()
        invariant
            i <= users@.len(),
            forall|k: int| 0 <= k < i ==> (#[trigger] users@[k]).id != id,
        decreases users@.len() - i,
    {
        if users[i].id == id {
            return Some(i);
        }
        i = i + 1;
    }
    None
}

/// A bounded, offset-based scan in natural row order.
pub fn get_all(store: &UserStore, limit: i64, offset: i64) -> (r: Vec<User>)
    requires
        store.wf(),
        limit >= 0,
        offset >= 0,
    ensures
        r@ == spec_page(store@, limit as int, offset as int),
        r@.len() <= limit,
{
    let mut items: Vec<User> = Vec::new();
    let mut i: usize = 0;
    proof {
        assert(store.users@.subrange(0, 0) =~= Seq::<User>::empty());
        assert(items@ =~= spec_page(store.users@.subrange(0, 0), limit as int, offset as int));
    }
    while i < store.users.len()
        invariant
            store.wf(),
            limit >= 0,
            offset >= 0,
            i <= store.users@.len(),
            items@ == spec_page(store.users@.subrange(0, i as int), limit as int, offset as int),
        decreases store.users@.len() - i,
    {
        proof {
            assert(store.users@.len() < i64::MAX);
        }
        if i as i64 >= offset && (items.len() as i64) < limit {
            items.push(store.users[i].clone());
        }
        proof {
            let s = store.users@;
            let ii = i as int;
            assert(s.subrange(0, ii + 1) =~= s.subrange(0, ii).push(s[ii]));
            assert(items@ =~= spec_page(s.subrange(0, ii + 1), limit as int, offset as int));
        }
        i = i + 1;
    }
    proof {
        assert(store.users@.subrange(0, store.users@.len() as int) =~= store.users@);
    }
    items
}

/// Total row count, unfiltered.
pub fn get_total_count(store: &UserStore) -> (r: i64)
    requires
        store.wf(),
    ensures
        r == store@.len(),
{
    store.users.len() as i64
}

/// The row carrying `id`, or nothing when no row does.
pub fn get_by_id(store: &UserStore, id: i64) -> (r: Option<User>)
    requires
        store.wf(),
    ensures
        r == spec_lookup_user(store@, id),
{
    match find_user_index(&store.users, id) {
        Some(i) => {
            let u = store.users[i].clone();
            proof {
                let s = store@;
                assert(spec_has_user(s, id));
                let j = spec_user_index(s, id);
                assert(0 <= j < s.len() && s[j].id == id);
                assert(j == i as int);
            }
            Some(u)
        },
        None => {
            proof {
                assert(!spec_has_user(store@, id));
            }
            None
        },
    }
}

/// Insert a new row built from the payload: the store assigns the id and
/// sets both timestamps to `now`; the role defaults to job seeker. Fails
/// when a required field is absent, when the email is already used, or
/// when no id is left.
pub fn create(store: &mut UserStore, user: UserUpdateRequest, now: i64) -> (r: Result<
    User,
    RepoError,
>)
    requires
        old(store).wf(),
    ensures
        final(store).wf(),
        (match r {
            Ok(u) => {
                &&& user.name is Some && user.email is Some && user.password is Some
                &&& !spec_email_taken(old(store)@, user.email.unwrap()@)
                &&& old(store).next_id < i64::MAX
                &&& u == spec_new_user(user, old(store).next_id, now)
                &&& final(store)@ == old(store)@.push(u)
                &&& final(store).next_id == old(store).next_id + 1
            },
            Err(RepoError::MissingField) => {
                &&& (user.name is None || user.email is None || user.password is None)
                &&& *final(store) == *old(store)
            },
            Err(RepoError::DuplicateEmail) => {
                &&& user.name is Some && user.email is Some && user.password is Some
                &&& spec_email_taken(old(store)@, user.email.unwrap()@)
                &&& *final(store) == *old(store)
            },
            Err(RepoError::CapacityExhausted) => {
                &&& user.name is Some && user.email is Some && user.password is Some
                &&& !spec_email_taken(old(store)@, user.email.unwrap()@)
                &&& old(store).next_id == i64::MAX
                &&& *final(store) == *old(store)
            },
        }),
{
    let UserUpdateRequest { name, email, password, role } = user;
    let name = match name {
        Some(n) => n,
        None => {
            return Err(RepoError::MissingField);
        },
    };
    let email = match email {
        Some(e) => e,
        None => {
            return Err(RepoError::MissingField);
        },
    };
    let password = match password {
        Some(p) => p,
        None => {
            return Err(RepoError::MissingField);
        },
    };
    let mut i: usize = 0;
    while i < store.users.len()
        invariant
            *store == *old(store),
            store.wf(),
            i <= store.users@.len(),
            user.name is Some && user.email is Some && user.password is Some,
            name == user.name.unwrap(),
            email == user.email.unwrap(),
            password == user.password.unwrap(),
            role == user.role,
            forall|k: int| 0 <= k < i ==> (#[trigger] store.users@[k]).email@ != email@,
        decreases store.users@.len() - i,
    {
        if str_eq(store.users[i].email.as_str(), email.as_str()) {
            proof {
                assert(spec_email_taken(old(store)@, user.email.unwrap()@));
            }
            return Err(RepoError::DuplicateEmail);
        }
        i = i + 1;
    }
    if store.next_id == i64::MAX {
        return Err(RepoError::CapacityExhausted);
    }
    let id = store.next_id;
    let u = User { id, name, email, password, role: (match role {
        Some(r) => r,
        None => UserRole::JobSeeker,
    }), created_at: now, updated_at: now };
    let result = u.clone();
    store.users.push(u);
    store.next_id = id + 1;
    proof {
        let s_old = old(store)@;
        let s_new = store@;
        assert(s_new == s_old.push(result));
        assert forall|a: int, b: int| 0 <= a < b < s_new.len() implies (#[trigger] s_new[a]).id != (
        #[trigger] s_new[b]).id by {
            if b < s_old.len() {
                assert(s_new[a] == s_old[a] && s_new[b] == s_old[b]);
            } else {
                assert(s_new[b] == result);
                assert(s_new[a] == s_old[a]);
            }
        };
        assert forall|a: int, b: int|
            0 <= a < b < s_new.len() implies (#[trigger] s_new[a]).email@ != (
        #[trigger] s_new[b]).email@ by {
            if b < s_old.len() {
                assert(s_new[a] == s_old[a] && s_new[b] == s_old[b]);
            } else {
                assert(s_new[b] == result);
                assert(s_new[a] == s_old[a]);
            }
        };
        assert forall|k: int| 0 <= k < s_new.len() implies 1 <= (#[trigger] s_new[k]).id
            < store.next_id by {
            if k < s_old.len() {
                assert(s_new[k] == s_old[k]);
            } else {
                assert(s_new[k] == result);
            }
        };
    }
    Ok(result)
}

/// Replace the row carrying `id` with `user` (the handler supplies the
/// already-merged record). A missing row is a no-op, as an `UPDATE`
/// matching nothing is; fails only when the row exists and the new email
/// is used by another row.
pub fn update(store: &mut UserStore, id: i64, user: User) -> (r: Result<(), RepoError>)
    requires
        old(store).wf(),
        user.id == id,
    ensures
        final(store).wf(),
        final(store).next_id == old(store).next_id,
        (match r {
            Ok(_) => {
                &&& !(spec_has_user(old(store)@, id) && spec_email_taken_by_other(
                    old(store)@,
                    user.email@,
                    id,
                ))
                &&& final(store)@ == spec_replace_user(old(store)@, id, user)
            },
            Err(e) => {
                &&& e == RepoError::DuplicateEmail
                &&& spec_has_user(old(store)@, id)
                &&& spec_email_taken_by_other(old(store)@, user.email@, id)
                &&& *final(store) == *old(store)
            },
        }),
{
    let idx = match find_user_index(&store.users, id) {
        Some(i) => i,
        None => {
            proof {
                assert(!spec_has_user(store@, id));
                assert(store@.map_values(
                    |u: User|
                        if u.id == id {
                            user
                        } else {
                            u
                        },
                ) =~= store@);
            }
            return Ok(());
        },
    };
    let mut i: usize = 0;
    while i < store.users.len()
        invariant
            *store == *old(store),
            store.wf(),
            user.id == id,
            i <= store.users@.len(),
            idx < store.users@.len(),
            store.users@[idx as int].id == id,
            forall|k: int|
                0 <= k < i ==> !((#[trigger] store.users@[k]).email@ == user.email@
                    && store.users@[k].id != id),
        decreases store.users@.len() - i,
    {
        if store.users[i].id != id && str_eq(store.users[i].email.as_str(), user.email.as_str()) {
            proof {
                assert(spec_has_user(old(store)@, id));
                assert(spec_email_taken_by_other(old(store)@, user.email@, id));
            }
            return Err(RepoError::DuplicateEmail);
        }
        i = i + 1;
    }
    proof {
        assert(spec_has_user(old(store)@, id));
    }
    store.users[idx] = user;
    proof {
        let s_old = old(store)@;
        let s_new = store@;
        assert(s_new == s_old.update(idx as int, user));
        assert forall|k: int| 0 <= k < s_old.len() && k != idx implies (
        #[trigger] s_old[k]).id != id by {
            if k < idx as int {
                assert(s_old[k].id != s_old[idx as int].id);
            } else {
                assert(s_old[idx as int].id != s_old[k].id);
            }
        };
        assert(s_new =~= spec_replace_user(s_old, id, user));
        assert forall|a: int, b: int| 0 <= a < b < s_new.len() implies (#[trigger] s_new[a]).id != (
        #[trigger] s_new[b]).id by {
            assert(s_old[a].id != s_old[b].id);
            if a == idx as int {
                assert(s_new[a].id == id && s_new[b] == s_old[b]);
            } else if b == idx as int {
                assert(s_new[b].id == id && s_new[a] == s_old[a]);
            } else {
                assert(s_new[a] == s_old[a] && s_new[b] == s_old[b]);
            }
        };
        assert forall|a: int, b: int|
            0 <= a < b < s_new.len() implies (#[trigger] s_new[a]).email@ != (
        #[trigger] s_new[b]).email@ by {
            assert(s_old[a].email@ != s_old[b].email@);
            if a == idx as int {
                assert(s_new[b] == s_old[b] && s_old[b].id != id);
            } else if b == idx as int {
                assert(s_new[a] == s_old[a] && s_old[a].id != id);
            } else {
                assert(s_new[a] == s_old[a] && s_new[b] == s_old[b]);
            }
        };
        assert forall|k: int| 0 <= k < s_new.len() implies 1 <= (#[trigger] s_new[k]).id
            < store.next_id by {
            if k == idx as int {
                assert(s_new[k].id == s_old[k].id);
            } else {
                assert(s_new[k] == s_old[k]);
            }
        };
    }
    Ok(())
}

/// Delete the row carrying `id`. Deleting an absent id succeeds and
/// changes nothing.
pub fn delete(store: &mut UserStore, id: i64)
    requires
        old(store).wf(),
    ensures
        final(store).wf(),
        final(store).next_id == old(store).next_id,
        final(store)@ == spec_remove_user(old(store)@, id),
{
    match find_user_index(&store.users, id) {
        Some(i) => {
            proof {
                let s = store@;
                assert(spec_has_user(s, id));
                let j = spec_user_index(s, id);
                assert(0 <= j < s.len() && s[j].id == id);
                assert(j == i as int);
            }
            store.users.remove(i);
            proof {
                let s_old = old(store)@;
                let s_new = store@;
                s_old.remove_ensures(i as int);
                assert forall|a: int, b: int|
                    0 <= a < b < s_new.len() implies (#[trigger] s_new[a]).id != (
                #[trigger] s_new[b]).id by {
                    if b < i as int {
                        assert(s_new[a] == s_old[a] && s_new[b] == s_old[b]);
                    } else if a < i as int {
                        assert(s_new[a] == s_old[a] && s_new[b] == s_old[b + 1]);
                    } else {
                        assert(s_new[a] == s_old[a + 1] && s_new[b] == s_old[b + 1]);
                    }
                };
                assert forall|a: int, b: int|
                    0 <= a < b < s_new.len() implies (#[trigger] s_new[a]).email@ != (
                #[trigger] s_new[b]).email@ by {
                    if b < i as int {
                        assert(s_new[a] == s_old[a] && s_new[b] == s_old[b]);
                    } else if a < i as int {
                        assert(s_new[a] == s_old[a] && s_new[b] == s_old[b + 1]);
                    } else {
                        assert(s_new[a] == s_old[a + 1] && s_new[b] == s_old[b + 1]);
                    }
                };
                assert forall|k: int| 0 <= k < s_new.len() implies 1 <= (#[trigger] s_new[k]).id
                    < store.next_id by {
                    if k < i as int {
                        assert(s_new[k] == s_old[k]);
                    } else {
                        assert(s_new[k] == s_old[k + 1]);
                    }
                };
            }
        },
        None => {
            proof {
                assert(!spec_has_user(store@, id));
            }
        },
    }
}

} // verus!
