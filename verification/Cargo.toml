[package]
name = "mnemnk_agent"
version = "0.1.0"
edition = "2021"
publish = false

[dependencies]
serde_json = "*"
chrono = "*"
active-win-pos-rs = "*"
axum = "*"
axum-auth = "*"
tokio = { version = "*", features = ["full"] }
tower-http = { version = "*", features = ["timeout"] }
clap = { version = "*", features = ["derive"] }
serde = { version = "*", features = ["derive"] }
anyhow = "*"
log = "*"
env_logger = "*"
