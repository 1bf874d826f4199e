//! Adapter configuration.

use std::time::Duration;
use vstd::prelude::*;

verus! {

/// What `Duration::from_secs` returns for a number of whole seconds.
pub uninterp spec fn duration_of_secs(secs: u64) -> Duration;

/// Calls `std::time::Duration::from_secs`; the result is the duration of
/// `secs` whole seconds, named by `duration_of_secs`.
#[verifier::external_body]
fn duration_from_secs(secs: u64) -> (d: Duration)
    ensures
        d == duration_of_secs(secs),
{
    Duration::from_secs(secs)
}

/// Connection pool configuration for the adapter.
///
/// Controls pool sizing, timeouts, and connection lifecycle.
#[derive(Debug, Clone, Copy)]
pub struct PoolConfig {
    /// Maximum number of connections in the pool.
    pub max_connections: u32,
    /// Minimum number of idle connections to maintain.
    pub min_connections: u32,
    /// Maximum time to wait for a connection from the pool.
    pub acquire_timeout: Duration,
    /// Maximum idle time before a connection is closed.
    pub idle_timeout: Duration,
    /// Maximum lifetime of a connection.
    pub max_lifetime: Duration,
    /// Whether to run embedded migrations on adapter construction.
    pub run_migrations: bool,
}

/// The configuration that `PoolConfig::default` gives.
pub open spec fn default_pool_config() -> PoolConfig {
    PoolConfig {
        max_connections: 8,
        min_connections: 1,
        acquire_timeout: duration_of_secs(30),
        idle_timeout: duration_of_secs(600),
        max_lifetime: duration_of_secs(1800),
        run_migrations: true,
    }
}

impl Default for PoolConfig {
    fn default() -> (r: Self)
        ensures
            r == default_pool_config(),
    {
        PoolConfig {
            max_connections: 8,
            min_connections: 1,
            acquire_timeout: duration_from_secs(30),
            idle_timeout: duration_from_secs(600),
            max_lifetime: duration_from_secs(1800),
            run_migrations: true,
        }
    }
}

impl PoolConfig {
    /// Set the maximum number of connections; every other setting is kept.
    #[must_use]
    pub fn max_connections(self, n: u32) -> (r: Self)
        ensures
            r == (PoolConfig { max_connections: n, ..self }),
    {
        let mut cfg = self;
        cfg.max_connections = n;
        cfg
    }

    /// Set the minimum number of idle connections; every other setting is kept.
    #[must_use]
    pub fn min_connections(self, n: u32) -> (r: Self)
        ensures
            r == (PoolConfig { min_connections: n, ..self }),
    {
        let mut cfg = self;
        cfg.min_connections = n;
        cfg
    }

    /// Set the connection acquisition timeout; every other setting is kept.
    #[must_use]
    pub fn acquire_timeout(self, duration: Duration) -> (r: Self)
        ensures
            r == (PoolConfig { acquire_timeout: duration, ..self }),
    {
        let mut cfg = self;
        cfg.acquire_timeout = duration;
        cfg
    }

    /// Set the idle connection timeout; every other setting is kept.
    #[must_use]
    pub fn idle_timeout(self, duration: Duration) -> (r: Self)
        ensures
            r == (PoolConfig { idle_timeout: duration, ..self }),
    {
        let mut cfg = self;
        cfg.idle_timeout = duration;
        cfg
    }

    /// Set the maximum connection lifetime; every other setting is kept.
    #[must_use]
    pub fn max_lifetime(self, duration: Duration) -> (r: Self)
        ensures
            r == (PoolConfig { max_lifetime: duration, ..self }),
    {
        let mut cfg = self;
        cfg.max_lifetime = duration;
        cfg
    }

    /// Set whether to run migrations on construction; every other setting is kept.
    #[must_use]
    pub fn run_migrations(self, enabled: bool) -> (r: Self)
        ensures
            r == (PoolConfig { run_migrations: enabled, ..self }),
    {
        let mut cfg = self;
        cfg.run_migrations = enabled;
        cfg
    }
}


/// The database location that keeps the database in memory, for the lifetime
/// of the connection.
pub const IN_MEMORY_DATABASE_URL: &'static str = ":memory:";

/// A setting applied to each new connection: the statement that applies it,
/// and what it is for, as reported when it fails.
#[derive(Debug, Clone, Copy, PartialEq, Eq)]
pub struct Pragma {
    /// The SQL statement.
    pub statement: &'static str,
    /// What the statement does, in words ("set WAL mode").
    pub purpose: &'static str,
}

/// The settings applied to each new connection, in order: write-ahead
/// logging, a 5 second wait on locks, `NORMAL` synchronisation, enforced
/// foreign keys, and a 64 MB page cache.
pub open spec fn connection_pragmas_are(p: Seq<Pragma>) -> bool {
    &&& p.len() == 5
    &&& p[0].statement@ == "PRAGMA journal_mode = WAL"@ && p[0].purpose@ == "set WAL mode"@
    &&& p[1].statement@ == "PRAGMA busy_timeout = 5000"@ && p[1].purpose@ == "set busy timeout"@
    &&& p[2].statement@ == "PRAGMA synchronous = NORMAL"@ && p[2].purpose@
        == "set synchronous mode"@
    &&& p[3].statement@ == "PRAGMA foreign_keys = ON"@ && p[3].purpose@ == "enable foreign keys"@
    &&& p[4].statement@ == "PRAGMA cache_size = -64000"@ && p[4].purpose@ == "set cache size"@
}

/// The settings to apply to each new connection.
pub fn connection_pragmas() -> (r: Vec<Pragma>)
    ensures
        connection_pragmas_are(r@),
{
    vec![
        Pragma { statement: "PRAGMA journal_mode = WAL", purpose: "set WAL mode" },
        Pragma { statement: "PRAGMA busy_timeout = 5000", purpose: "set busy timeout" },
        Pragma { statement: "PRAGMA synchronous = NORMAL", purpose: "set synchronous mode" },
        Pragma { statement: "PRAGMA foreign_keys = ON", purpose: "enable foreign keys" },
        Pragma { statement: "PRAGMA cache_size = -64000", purpose: "set cache size" },
    ]
}

} // verus!
