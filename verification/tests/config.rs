use better_auth_diesel_sqlite::config::{connection_pragmas, IN_MEMORY_DATABASE_URL};
use better_auth_diesel_sqlite::PoolConfig;
use std::time::Duration;

#[test]
fn pool_config_defaults() {
    let cfg = PoolConfig::default();
    assert_eq!(cfg.max_connections, 8);
    assert_eq!(cfg.min_connections, 1);
    assert_eq!(cfg.acquire_timeout, Duration::from_secs(30));
    assert_eq!(cfg.idle_timeout, Duration::from_secs(600));
    assert_eq!(cfg.max_lifetime, Duration::from_secs(1800));
    assert!(cfg.run_migrations);
}

#[test]
fn pool_config_builders_set_one_field_each() {
    let cfg = PoolConfig::default()
        .max_connections(16)
        .min_connections(2)
        .acquire_timeout(Duration::from_secs(10))
        .idle_timeout(Duration::from_secs(60))
        .max_lifetime(Duration::from_secs(120))
        .run_migrations(false);
    assert_eq!(cfg.max_connections, 16);
    assert_eq!(cfg.min_connections, 2);
    assert_eq!(cfg.acquire_timeout, Duration::from_secs(10));
    assert_eq!(cfg.idle_timeout, Duration::from_secs(60));
    assert_eq!(cfg.max_lifetime, Duration::from_secs(120));
    assert!(!cfg.run_migrations);
}

#[test]
fn pool_config_builder_keeps_other_fields() {
    let cfg = PoolConfig::default().max_connections(3);
    assert_eq!(cfg.max_connections, 3);
    assert_eq!(cfg.min_connections, 1);
    assert_eq!(cfg.acquire_timeout, Duration::from_secs(30));
    assert!(cfg.run_migrations);
}

#[test]
fn connection_pragmas_in_order() {
    let p = connection_pragmas();
    let statements: Vec<&str> = p.iter().map(|x| x.statement).collect();
    assert_eq!(
        statements,
        vec![
            "PRAGMA journal_mode = WAL",
            "PRAGMA busy_timeout = 5000",
            "PRAGMA synchronous = NORMAL",
            "PRAGMA foreign_keys = ON",
            "PRAGMA cache_size = -64000",
        ]
    );
    assert_eq!(p[0].purpose, "set WAL mode");
    assert_eq!(p[3].purpose, "enable foreign keys");
}

#[test]
fn in_memory_url() {
    assert_eq!(IN_MEMORY_DATABASE_URL, ":memory:");
}
