[package]
name = "staff_rpc"
version = "0.1.0"
edition = "2021"
publish = false

[dependencies]
rand = "0.8"
poise = "0.6"
sqlx = { version = "0.7", default-features = false, features = ["runtime-tokio-rustls", "postgres"] }
tokio = { version = "1", features = ["rt-multi-thread", "macros"] }
log = "0.4"
env_logger = "0.10"
serde = { version = "1", features = ["derive"] }
