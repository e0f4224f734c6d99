//! The model of the `users` table: one bounded map from id to row, with
//! the four repository operations — create, read by id, update by id,
//! delete by id — exactly as the storage performs them, one statement
//! each.
//!
//! Identity is assigned serially by the table itself: every id handed out
//! is fresh, and ids of deleted rows are never reused.

use vstd::prelude::*;
use std::collections::HashMap;
use crate::user::NewUser;
use crate::user::User;
use crate::user::UserView;
use crate::errors::QueryError;

verus! {

broadcast use vstd::std_specs::hash::group_hash_axioms;

/// The users table. `rows` holds every live row keyed by its id;
/// `next_id` is the serial counter for the next id to assign.
pub struct UserTable {
    rows: HashMap<i32, User>,
    next_id: i32,
}

impl View for UserTable {
    type V = Map<i32, UserView>;

    /// The table's contents: each live id mapped to the abstract value of
    /// its row.
    closed spec fn view(&self) -> Map<i32, UserView> {
        self.rows@.map_values(|u: User| u@)
    }
}

impl UserTable {
    /// The id the next successful create will assign.
    pub closed spec fn upcoming_id(&self) -> int {
        self.next_id as int
    }

    /// Well-formedness: ids start at 1, every stored row carries its own
    /// key as id, and every stored id is below the serial counter — so
    /// the counter's value is always fresh.
    pub closed spec fn wf(&self) -> bool {
        &&& 1 <= self.next_id
        &&& forall|k: i32|
            #[trigger] self.rows@.contains_key(k) ==> 1 <= k < self.next_id
                && self.rows@[k].id == k
    }

    /// An empty table; the first row created will get id 1.
    pub fn new() -> (t: UserTable)
        ensures
            t.wf(),
            t@ == Map::<i32, UserView>::empty(),
            t.upcoming_id() == 1,
    {
        let t = UserTable { rows: HashMap::new(), next_id: 1 };
        proof {
            assert(t@ =~= Map::<i32, UserView>::empty());
        }
        t
    }

    /// Create: insert a row holding the payload's two fields; the table
    /// assigns the id (serially, hence fresh) and the creation time, and
    /// the full persisted row is returned.
    pub fn create(&mut self, new_user: NewUser, now: i64) -> (r: User)
        requires
            old(self).wf(),
            old(self).upcoming_id() < i32::MAX,
        ensures
            final(self).wf(),
            r@.id == old(self).upcoming_id(),
            !old(self)@.contains_key(r.id),
            r@.username == new_user@.username,
            r@.email == new_user@.email,
            r@.created_at == now as int,
            final(self)@ == old(self)@.insert(r.id, r@),
            final(self).upcoming_id() == old(self).upcoming_id() + 1,
    {
        let id = self.next_id;
        let stored = User {
            id,
            username: new_user.username.clone(),
            email: new_user.email.clone(),
            created_at: now,
        };
        let returned = User { id, username: new_user.username, email: new_user.email, created_at: now };
        proof {
            assert(stored@ == returned@);
        }
        self.rows.insert(id, stored);
        self.next_id = self.next_id + 1;
        proof {
            assert(self@ =~= old(self)@.insert(id, returned@));
            assert forall|k: i32| #[trigger] self.rows@.contains_key(k) implies 1 <= k
                < self.next_id && self.rows@[k].id == k by {
                if k != id {
                    assert(old(self).rows@.contains_key(k));
                    assert(old(self).rows@[k].id == k);
                }
            }
        }
        returned
    }

    /// Read by id: return a copy of the matching row, or the not-found
    /// failure when no row matches. Never mutates.
    pub fn read_by_id(&self, id: i32) -> (r: Result<User, QueryError>)
        requires
            self.wf(),
        ensures
            match r {
                Ok(u) => self@.contains_key(id) && u@ == self@[id] && u.id == id,
                Err(e) => !self@.contains_key(id) && e == QueryError::NotFound,
            },
    {
        match self.rows.get(&id) {
            Some(row) => Ok(
                User {
                    id: row.id,
                    username: row.username.clone(),
                    email: row.email.clone(),
                    created_at: row.created_at,
                },
            ),
            None => Err(QueryError::NotFound),
        }
    }

    /// Update by id: overwrite the two payload fields of the matching
    /// row — a full replace, never a merge — keeping id and creation time,
    /// and return the updated row. Fails as read does when no row matches.
    pub fn update_by_id(&mut self, id: i32, new_user: NewUser) -> (r: Result<User, QueryError>)
        requires
            old(self).wf(),
        ensures
            final(self).wf(),
            final(self).upcoming_id() == old(self).upcoming_id(),
            match r {
                Ok(u) => {
                    &&& old(self)@.contains_key(id)
                    &&& u.id == id
                    &&& u@.username == new_user@.username
                    &&& u@.email == new_user@.email
                    &&& u@.created_at == old(self)@[id].created_at
                    &&& final(self)@ == old(self)@.insert(id, u@)
                },
                Err(e) => {
                    &&& !old(self)@.contains_key(id)
                    &&& e == QueryError::NotFound
                    &&& final(self)@ == old(self)@
                },
            },
    {
        let created_at: i64 = match self.rows.get(&id) {
            Some(row) => row.created_at,
            None => {
                return Err(QueryError::NotFound);
            },
        };
        let stored = User {
            id,
            username: new_user.username.clone(),
            email: new_user.email.clone(),
            created_at,
        };
        let returned = User { id, username: new_user.username, email: new_user.email, created_at };
        proof {
            assert(stored@ == returned@);
        }
        self.rows.insert(id, stored);
        proof {
            assert(self@ =~= old(self)@.insert(id, returned@));
            assert forall|k: i32| #[trigger] self.rows@.contains_key(k) implies 1 <= k
                < self.next_id && self.rows@[k].id == k by {
                if k != id {
                    assert(old(self).rows@.contains_key(k));
                }
                assert(old(self).rows@[k].id == k || k == id);
            }
        }
        Ok(returned)
    }

    /// Delete by id: remove the matching row and report the number of
    /// rows affected — 1 when the id was live, 0 when it was not.
    pub fn delete_by_id(&mut self, id: i32) -> (deleted: usize)
        requires
            old(self).wf(),
        ensures
            final(self).wf(),
            final(self).upcoming_id() == old(self).upcoming_id(),
            final(self)@ == old(self)@.remove(id),
            deleted == (if old(self)@.contains_key(id) {
                1int
            } else {
                0int
            }),
    {
        let r = match self.rows.remove(&id) {
            Some(_) => 1,
            None => 0,
        };
        proof {
            assert(self@ =~= old(self)@.remove(id));
            assert forall|k: i32| #[trigger] self.rows@.contains_key(k) implies 1 <= k
                < self.next_id && self.rows@[k].id == k by {
                assert(old(self).rows@.contains_key(k));
                assert(old(self).rows@[k].id == k);
            }
        }
        r
    }
}

} // verus!
