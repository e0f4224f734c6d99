//! The four request handlers and their response policy.
//!
//! A handler never performs the checkout, the offload or the statement
//! itself: the surrounding process does, and what became of that run
//! arrives here as one plain event. The handler's job — the part worth
//! stating exactly — is the decision: which operation touches the table,
//! and which status and body answer each outcome.
//!
//! The policy is deliberately crude: every failure but one answers 500
//! with the formatted message; only a delete that affected no row answers
//! 404. A read or update of a missing row is *not* distinguished — it
//! surfaces as a generic query failure and a 500.

use vstd::prelude::*;
use vstd::string::StringExecFns;
use crate::errors::ApiError;
use crate::errors::HttpReply;
use crate::errors::OffloadFault;
use crate::errors::PoolFault;
use crate::errors::QueryError;
use crate::errors::ReplyBody;
use crate::errors::error_body_view;
use crate::table::UserTable;
use crate::user::NewUser;
use crate::user::User;

verus! {

/// The fate of one offloaded database run, as the handler learns it:
/// either the connection was checked out and the worker completed the
/// closure — the statement then reaches the table — or one of the three
/// independent failure sources struck first.
pub enum DbRun {
    /// Checkout and offload both succeeded; the statement executed.
    Ran,
    /// The pool had no connection to give (exhaustion or a broken pool).
    PoolFailed(PoolFault),
    /// The worker that was to run the closure was gone or crashed.
    OffloadFailed(OffloadFault),
    /// The statement ran and the backend refused it (constraint
    /// violation, connectivity loss), with the backend's message.
    QueryFailed(String),
}

/// The 200-or-500 policy shared by create, read and update: a row answers
/// 200 with the row as JSON; any error answers its uniform 500.
pub fn user_reply(outcome: Result<User, ApiError>) -> (r: HttpReply)
    ensures
        match outcome {
            Ok(u) => r.status == 200 && r.body == ReplyBody::UserJson(u),
            Err(e) => r.status == 500 && (match r.body {
                ReplyBody::ErrorJson(m) => m@ == error_body_view(e),
                _ => false,
            }),
        },
{
    match outcome {
        Ok(u) => HttpReply { status: 200, body: ReplyBody::UserJson(u) },
        Err(e) => e.error_response(),
    }
}

/// The delete policy: a count of affected rows answers 200 when a row
/// went and 404 with "User not found" when none did; any error answers
/// its uniform 500.
pub fn delete_reply(outcome: Result<usize, ApiError>) -> (r: HttpReply)
    ensures
        match outcome {
            Ok(n) => if n > 0 {
                r.status == 200 && (match r.body {
                    ReplyBody::Text(m) => m@ == "User deleted successfully"@,
                    _ => false,
                })
            } else {
                r.status == 404 && (match r.body {
                    ReplyBody::Text(m) => m@ == "User not found"@,
                    _ => false,
                })
            },
            Err(e) => r.status == 500 && (match r.body {
                ReplyBody::ErrorJson(m) => m@ == error_body_view(e),
                _ => false,
            }),
        },
{
    match outcome {
        Ok(n) => {
            if n > 0 {
                HttpReply {
                    status: 200,
                    body: ReplyBody::Text(String::from_str("User deleted successfully")),
                }
            } else {
                HttpReply {
                    status: 404,
                    body: ReplyBody::Text(String::from_str("User not found")),
                }
            }
        },
        Err(e) => e.error_response(),
    }
}

/// The error a failed run unifies to, by source.
pub open spec fn run_error(run: DbRun) -> ApiError
    recommends
        !(run is Ran),
{
    match run {
        DbRun::Ran => ApiError::DbError(QueryError::NotFound),  // unreachable under the recommends
        DbRun::PoolFailed(p) => ApiError::PoolError(p),
        DbRun::OffloadFailed(b) => ApiError::BlockingError(b),
        DbRun::QueryFailed(m) => ApiError::DbError(QueryError::Failure(m)),
    }
}

/// POST /users: when the run reached the table, insert the payload as a
/// fresh row and answer 200 with the persisted row; on any failure leave
/// the table alone and answer the uniform 500.
pub fn create_user(table: &mut UserTable, run: DbRun, new_user: NewUser, now: i64) -> (r: HttpReply)
    requires
        old(table).wf(),
        run is Ran ==> old(table).upcoming_id() < i32::MAX,
    ensures
        final(table).wf(),
        match run {
            DbRun::Ran => {
                &&& r.status == 200
                &&& match r.body {
                    ReplyBody::UserJson(u) => {
                        &&& u@.id == old(table).upcoming_id()
                        &&& !old(table)@.contains_key(u.id)
                        &&& u@.username == new_user@.username
                        &&& u@.email == new_user@.email
                        &&& u@.created_at == now as int
                        &&& final(table)@ == old(table)@.insert(u.id, u@)
                        &&& final(table).upcoming_id() == old(table).upcoming_id() + 1
                    },
                    _ => false,
                }
            },
            _ => {
                &&& r.status == 500
                &&& match r.body {
                    ReplyBody::ErrorJson(m) => m@ == error_body_view(run_error(run)),
                    _ => false,
                }
                &&& final(table)@ == old(table)@
                &&& final(table).upcoming_id() == old(table).upcoming_id()
            },
        },
{
    match run {
        DbRun::Ran => {
            let u = table.create(new_user, now);
            user_reply(Ok(u))
        },
        DbRun::PoolFailed(p) => user_reply(Err(ApiError::from(p))),
        DbRun::OffloadFailed(b) => user_reply(Err(ApiError::from(b))),
        DbRun::QueryFailed(m) => user_reply(Err(ApiError::from(QueryError::Failure(m)))),
    }
}

/// GET /users/{id}: when the run reached the table, answer 200 with the
/// matching row — a missing row is not given its own status here: it
/// becomes the generic query failure and a 500. Never mutates.
pub fn get_user(table: &UserTable, run: DbRun, user_id: i32) -> (r: HttpReply)
    requires
        table.wf(),
    ensures
        match run {
            DbRun::Ran => {
                if table@.contains_key(user_id) {
                    r.status == 200 && (match r.body {
                        ReplyBody::UserJson(u) => u@ == table@[user_id] && u.id == user_id,
                        _ => false,
                    })
                } else {
                    r.status == 500 && (match r.body {
                        ReplyBody::ErrorJson(m) => m@ == error_body_view(
                            ApiError::DbError(QueryError::NotFound),
                        ),
                        _ => false,
                    })
                }
            },
            _ => r.status == 500 && (match r.body {
                ReplyBody::ErrorJson(m) => m@ == error_body_view(run_error(run)),
                _ => false,
            }),
        },
{
    match run {
        DbRun::Ran => {
            match table.read_by_id(user_id) {
                Ok(u) => user_reply(Ok(u)),
                Err(e) => user_reply(Err(ApiError::from(e))),
            }
        },
        DbRun::PoolFailed(p) => user_reply(Err(ApiError::from(p))),
        DbRun::OffloadFailed(b) => user_reply(Err(ApiError::from(b))),
        DbRun::QueryFailed(m) => user_reply(Err(ApiError::from(QueryError::Failure(m)))),
    }
}

/// PUT /users/{id}: when the run reached the table, overwrite the two
/// payload fields of the matching row — a full replace — and answer 200
/// with the updated row; a missing row becomes, as in a read, a generic
/// query failure and a 500, and the table stays as it was.
pub fn update_user(table: &mut UserTable, run: DbRun, user_id: i32, updated_user: NewUser) -> (r:
    HttpReply)
    requires
        old(table).wf(),
    ensures
        final(table).wf(),
        final(table).upcoming_id() == old(table).upcoming_id(),
        match run {
            DbRun::Ran => {
                if old(table)@.contains_key(user_id) {
                    &&& r.status == 200
                    &&& match r.body {
                        ReplyBody::UserJson(u) => {
                            &&& u.id == user_id
                            &&& u@.username == updated_user@.username
                            &&& u@.email == updated_user@.email
                            &&& u@.created_at == old(table)@[user_id].created_at
                            &&& final(table)@ == old(table)@.insert(user_id, u@)
                        },
                        _ => false,
                    }
                } else {
                    &&& r.status == 500
                    &&& match r.body {
                        ReplyBody::ErrorJson(m) => m@ == error_body_view(
                            ApiError::DbError(QueryError::NotFound),
                        ),
                        _ => false,
                    }
                    &&& final(table)@ == old(table)@
                }
            },
            _ => {
                &&& r.status == 500
                &&& match r.body {
                    ReplyBody::ErrorJson(m) => m@ == error_body_view(run_error(run)),
                    _ => false,
                }
                &&& final(table)@ == old(table)@
            },
        },
{
    match run {
        DbRun::Ran => {
            match table.update_by_id(user_id, updated_user) {
                Ok(u) => user_reply(Ok(u)),
                Err(e) => user_reply(Err(ApiError::from(e))),
            }
        },
        DbRun::PoolFailed(p) => user_reply(Err(ApiError::from(p))),
        DbRun::OffloadFailed(b) => user_reply(Err(ApiError::from(b))),
        DbRun::QueryFailed(m) => user_reply(Err(ApiError::from(QueryError::Failure(m)))),
    }
}

/// DELETE /users/{id}: when the run reached the table, remove the
/// matching row; one row gone answers 200 "User deleted successfully",
/// none answers 404 "User not found" — never 200 for an id that was not
/// there. Failures answer the uniform 500 and leave the table alone.
pub fn delete_user(table: &mut UserTable, run: DbRun, user_id: i32) -> (r: HttpReply)
    requires
        old(table).wf(),
    ensures
        final(table).wf(),
        final(table).upcoming_id() == old(table).upcoming_id(),
        match run {
            DbRun::Ran => {
                &&& final(table)@ == old(table)@.remove(user_id)
                &&& if old(table)@.contains_key(user_id) {
                    r.status == 200 && (match r.body {
                        ReplyBody::Text(m) => m@ == "User deleted successfully"@,
                        _ => false,
                    })
                } else {
                    r.status == 404 && (match r.body {
                        ReplyBody::Text(m) => m@ == "User not found"@,
                        _ => false,
                    })
                }
            },
            _ => {
                &&& r.status == 500
                &&& match r.body {
                    ReplyBody::ErrorJson(m) => m@ == error_body_view(run_error(run)),
                    _ => false,
                }
                &&& final(table)@ == old(table)@
            },
        },
{
    match run {
        DbRun::Ran => {
            let deleted = table.delete_by_id(user_id);
            delete_reply(Ok(deleted))
        },
        DbRun::PoolFailed(p) => delete_reply(Err(ApiError::from(p))),
        DbRun::OffloadFailed(b) => delete_reply(Err(ApiError::from(b))),
        DbRun::QueryFailed(m) => delete_reply(Err(ApiError::from(QueryError::Failure(m)))),
    }
}

} // verus!
