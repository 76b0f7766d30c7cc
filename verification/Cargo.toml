[package]
name = "congratulator"
version = "0.1.0"
edition = "2021"
rust-version = "1.95"
publish = false

[dependencies]
chrono = "=0.4.45"
config = "=0.13.4"
dptree = "=0.3.0"
google-sheets4 = "=5.0.5"
hyper = { version = "=0.14.32", features = ["client", "http1", "http2"] }
hyper-rustls = "=0.24.2"
itertools = "=0.12.1"
log = "=0.4.34"
pretty_env_logger = "=0.5.0"
serde = { version = "=1.0.229", features = ["derive"] }
takecell = "=0.1.1"
teloxide = { version = "=0.12.2", features = ["macros"] }
thiserror = "=1.0.69"
tokio = { version = "=1.54.1", features = ["macros", "rt-multi-thread", "sync", "time"] }
tokio_schedule = "=0.3.2"
