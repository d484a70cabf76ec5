[package]
name = "cosmicding"
version = "0.1.0"
edition = "2021"
publish = false

[dependencies]
anyhow = "1"
chrono = "0.4"
constcat = "*"
directories = "*"
include_dir = "0.7"
log = "0.4"
open = "5"
paste = "1"
pretty_env_logger = "0.5"
reqwest = { version = "0.12", default-features = false, features = ["json", "rustls-tls"] }
rfd = "*"
serde = { version = "1", features = ["derive"] }
serde_json = "1"
sqlx = { version = "0.8", default-features = false, features = ["sqlite", "runtime-tokio", "migrate"] }
tokio = { version = "1", features = ["rt-multi-thread", "macros", "time"] }
urlencoding = "2"
