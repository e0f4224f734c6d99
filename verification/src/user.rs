//! The user entity and its transient input payload.

use vstd::prelude::*;

verus! {

/// A persisted user row. `id` and `created_at` are assigned by the store
/// when the row is created and never change afterwards; `username` and
/// `email` are the mutable payload.
pub struct User {
    pub id: i32,
    pub username: String,
    pub email: String,
    /// Creation time, in non-leap microseconds since the Unix epoch.
    pub created_at: i64,
}

/// The abstract value of one persisted user row.
pub ghost struct UserView {
    pub id: int,
    pub username: Seq<char>,
    pub email: Seq<char>,
    pub created_at: int,
}

impl View for User {
    type V = UserView;

    open spec fn view(&self) -> UserView {
        UserView {
            id: self.id as int,
            username: self.username@,
            email: self.email@,
            created_at: self.created_at as int,
        }
    }
}

/// The transient input payload for both creation and update: the two
/// mutable fields only, no identity and no timestamp. An update uses it
/// whole — both fields are overwritten, nothing is merged.
pub struct NewUser {
    pub username: String,
    pub email: String,
}

/// The abstract value of an input payload.
pub ghost struct NewUserView {
    pub username: Seq<char>,
    pub email: Seq<char>,
}

impl View for NewUser {
    type V = NewUserView;

    open spec fn view(&self) -> NewUserView {
        NewUserView { username: self.username@, email: self.email@ }
    }
}

} // verus!
