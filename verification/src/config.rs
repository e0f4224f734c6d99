//! Startup configuration: the service needs one data-source URL from the
//! environment, and refuses to start without it.

use vstd::prelude::*;

verus! {

/// The startup failure: the required environment variable was absent.
/// Fatal — the process must terminate before binding its listener.
#[derive(PartialEq, Eq, Structural, Clone, Copy, Debug)]
pub enum ConfigError {
    MissingDatabaseUrl,
}

/// Decides whether the process may start: the caller hands in the value of
/// the `DATABASE_URL` environment variable, if any. Absent means a fatal
/// configuration error; present means the URL is used as given.
pub fn database_url_from_env(var: Option<String>) -> (r: Result<String, ConfigError>)
    ensures
        match var {
            Some(url) => r == Ok::<String, ConfigError>(url),
            None => r == Err::<String, ConfigError>(ConfigError::MissingDatabaseUrl),
        },
{
    match var {
        Some(url) => Ok(url),
        None => Err(ConfigError::MissingDatabaseUrl),
    }
}

} // verus!
