//! How the shared connection pool is to be set up.

use vstd::prelude::*;

verus! {

/// The setting that holds the connection string. The service does not start
/// without it.
pub const DATABASE_URL: &'static str = "DATABASE_URL";

/// The most connections the pool holds at once.
pub const MAX_CONNECTIONS: u32 = 20;

/// How long, in seconds, a request waits for a free connection before it fails.
pub const ACQUIRE_TIMEOUT_SECS: u64 = 5;

/// The settings of a connection pool.
#[derive(Debug, PartialEq, Eq)]
pub struct PoolSettings {
    pub database_url: String,
    pub max_connections: u32,
    pub acquire_timeout_secs: u64,
}

/// Settles how the pool for `database_url` is built: bounded to twenty
/// connections, with at most five seconds of waiting for one.
pub fn create_pool(database_url: String) -> (settings: PoolSettings)
    ensures
        settings.database_url == database_url,
        settings.max_connections == 20,
        settings.acquire_timeout_secs == 5,
{
    PoolSettings {
        database_url,
        max_connections: MAX_CONNECTIONS,
        acquire_timeout_secs: ACQUIRE_TIMEOUT_SECS,
    }
}

} // verus!
