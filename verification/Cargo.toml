[package]
name = "penny_scalper"
version = "0.1.0"
edition = "2021"
publish = false

[dependencies]
chrono = "*"
chrono-tz = "*"
serde = { version = "*", features = ["derive"] }
serde_json = "*"
rmp-serde = "*"
toml = "*"
tokio = { version = "*", features = ["full"] }
tokio-util = "*"
arc-swap = "*"
arrayvec = "*"
log = "*"
env_logger = "*"
anyhow = "*"
csv = "*"
axum = { version = "*", features = ["ws"] }
tower-http = { version = "*", features = ["fs"] }
