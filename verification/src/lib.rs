//! A small user-management service core: a model of one `users` table with
//! create / read / update / delete operations, the unified error taxonomy of
//! the service, and the per-route response logic of its four HTTP handlers.
//!
//! Everything here is plain, verified logic. The surrounding process (the
//! HTTP listener, the connection pool, the worker that runs blocking
//! database calls) lives outside and feeds this core plain values.

mod config;
mod errors;
mod handlers;
mod laws;
mod table;
mod user;

pub use config::database_url_from_env;
pub use config::ConfigError;
pub use errors::ApiError;
pub use errors::HttpReply;
pub use errors::OffloadFault;
pub use errors::PoolFault;
pub use errors::QueryError;
pub use errors::ReplyBody;
pub use errors::error_body_view;
pub use handlers::DbRun;
pub use handlers::create_user;
pub use handlers::delete_reply;
pub use handlers::delete_user;
pub use handlers::get_user;
pub use handlers::run_error;
pub use handlers::update_user;
pub use handlers::user_reply;
pub use laws::lemma_create_then_read;
pub use laws::lemma_creates_assign_distinct_ids;
pub use laws::lemma_delete_then_delete;
pub use laws::lemma_later_creates_assign_larger_ids;
pub use laws::lemma_update_overwrites;
pub use table::UserTable;
pub use user::NewUser;
pub use user::NewUserView;
pub use user::User;
pub use user::UserView;
