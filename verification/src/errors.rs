//! The unified error taxonomy of the service.
//!
//! A request can fail in three independent places: checking a connection
//! out of the pool, offloading the blocking statement to a worker, and the
//! statement itself. Each failure source keeps its own kind internally and
//! is converted to one uniform HTTP-facing response only at the boundary.

use vstd::prelude::*;
use vstd::string::StringExecFns;
use crate::user::User;

verus! {

/// Failure of the data operation itself: either no row matched the given
/// id, or the backend refused the statement (constraint violation,
/// connectivity loss), reduced to its human-readable message.
#[derive(Debug)]
pub enum QueryError {
    NotFound,
    Failure(String),
}

impl QueryError {
    /// The message the backend shows for this failure.
    pub open spec fn spec_message(&self) -> Seq<char> {
        match self {
            QueryError::NotFound => "Record not found"@,
            QueryError::Failure(m) => m@,
        }
    }

    pub fn message(&self) -> (r: String)
        ensures
            r@ == self.spec_message(),
    {
        match self {
            QueryError::NotFound => String::from_str("Record not found"),
            QueryError::Failure(m) => m.clone(),
        }
    }
}

/// Connection checkout failed: the pool was exhausted or broken. Carries
/// the pool's human-readable message.
pub struct PoolFault {
    pub message: String,
}

/// The offloaded unit of work never completed: the worker that was to run
/// the blocking statement was shut down or crashed. Carries the
/// human-readable message of that failure.
pub struct OffloadFault {
    pub message: String,
}

/// One error for the whole request pipeline: every failure source a
/// handler can see, each case keeping its underlying cause.
pub enum ApiError {
    DbError(QueryError),
    PoolError(PoolFault),
    BlockingError(OffloadFault),
}

impl ApiError {
    /// The formatted message, naming the failure source.
    pub open spec fn spec_message(&self) -> Seq<char> {
        match self {
            ApiError::DbError(e) => "Database error: "@ + e.spec_message(),
            ApiError::PoolError(p) => "Pool error: "@ + p.message@,
            ApiError::BlockingError(b) => "Blocking error: "@ + b.message@,
        }
    }

    pub fn message(&self) -> (r: String)
        ensures
            r@ == self.spec_message(),
    {
        match self {
            ApiError::DbError(e) => String::from_str("Database error: ").concat(
                e.message().as_str(),
            ),
            ApiError::PoolError(p) => String::from_str("Pool error: ").concat(p.message.as_str()),
            ApiError::BlockingError(b) => String::from_str("Blocking error: ").concat(
                b.message.as_str(),
            ),
        }
    }

    /// The uniform HTTP shape of any failure: a 500 whose JSON body is the
    /// formatted message behind a fixed prefix.
    pub fn error_response(&self) -> (r: HttpReply)
        ensures
            r.status == 500,
            match r.body {
                ReplyBody::ErrorJson(m) => m@ == error_body_view(*self),
                _ => false,
            },
    {
        HttpReply {
            status: 500,
            body: ReplyBody::ErrorJson(
                String::from_str("Internal Server Error: ").concat(self.message().as_str()),
            ),
        }
    }
}

/// The body of the error response for `e`.
pub open spec fn error_body_view(e: ApiError) -> Seq<char> {
    "Internal Server Error: "@ + e.spec_message()
}

impl core::convert::From<QueryError> for ApiError {
    fn from(e: QueryError) -> (r: ApiError) {
        ApiError::DbError(e)
    }
}

impl vstd::std_specs::convert::FromSpecImpl<QueryError> for ApiError {
    open spec fn obeys_from_spec() -> bool {
        true
    }

    open spec fn from_spec(e: QueryError) -> ApiError {
        ApiError::DbError(e)
    }
}

impl core::convert::From<PoolFault> for ApiError {
    fn from(e: PoolFault) -> (r: ApiError) {
        ApiError::PoolError(e)
    }
}

impl vstd::std_specs::convert::FromSpecImpl<PoolFault> for ApiError {
    open spec fn obeys_from_spec() -> bool {
        true
    }

    open spec fn from_spec(e: PoolFault) -> ApiError {
        ApiError::PoolError(e)
    }
}

impl core::convert::From<OffloadFault> for ApiError {
    fn from(e: OffloadFault) -> (r: ApiError) {
        ApiError::BlockingError(e)
    }
}

impl vstd::std_specs::convert::FromSpecImpl<OffloadFault> for ApiError {
    open spec fn obeys_from_spec() -> bool {
        true
    }

    open spec fn from_spec(e: OffloadFault) -> ApiError {
        ApiError::BlockingError(e)
    }
}

/// One HTTP response, as the handlers decide it: a status code and a body
/// still in terms of the library's values. Turning the body into bytes
/// (JSON for users and error messages, plain text for delete) is the
/// transport layer's job.
pub struct HttpReply {
    pub status: u16,
    pub body: ReplyBody,
}

pub enum ReplyBody {
    /// A user row, to be serialized as a JSON object.
    UserJson(User),
    /// A plain-text body.
    Text(String),
    /// An error message, to be serialized as a JSON string.
    ErrorJson(String),
}

} // verus!
