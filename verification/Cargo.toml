[package]
name = "sonos_scrobbler"
version = "0.1.0"
edition = "2021"
publish = false

[dependencies]
anyhow = "1"
env_logger = "0.10"
hyper = { version = "0.14", features = ["full"] }
log = "0.4"
quick-xml = { version = "0.31", features = ["serialize"] }
reqwest = { version = "0.11", default-features = false }
rustfm-scrobble = "*"
rusty-sonos = "*"
serde = { version = "1", features = ["derive"] }
sqlx = { version = "0.7", default-features = false, features = ["sqlite", "runtime-tokio"] }
thiserror = "1"
tokio = { version = "1", features = ["full"] }
