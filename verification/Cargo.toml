[package]
name = "listui"
version = "0.1.0"
edition = "2021"
publish = false

[dependencies]
anyhow = "1"
argh = "0.1"
crossterm = "0.28"
diesel = { version = "2.2", default-features = false, features = ["sqlite"] }
diesel_migrations = { version = "2.2", features = ["sqlite"] }
dirs = "6"
dotenvy = "0.15"
lazy_static = "1"
log = "0.4"
rand = "0.8"
ratatui = "0.29"
regex = "1"
reqwest = { version = "0.12", default-features = false, features = ["default-tls", "charset", "http2"] }
serde = { version = "1", features = ["derive"] }
serde_json = "1"
simplelog = { version = "0.12", default-features = false }
thiserror = "1"
tokio = { version = "1", features = ["rt-multi-thread", "sync", "time", "process"] }
