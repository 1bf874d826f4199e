[package]
name = "better-auth-diesel-sqlite"
version = "0.1.0"
edition = "2021"
publish = false

[dependencies]
better-auth-core = "*"
chrono = "0.4"
uuid = { version = "1", features = ["v4"] }
serde_json = "1"
diesel = { version = "2", features = ["sqlite"] }
diesel_migrations = "2"
tokio = { version = "1", features = ["rt", "rt-multi-thread", "sync", "macros"] }
async-trait = "0.1"
thiserror = "2"
