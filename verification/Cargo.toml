[package]
name = "rewards"
version = "0.1.0"
edition = "2021"
publish = false

[dependencies]
humantime = "=2.4.0"
rand = "=0.8.8"
regex = "=1.13.1"
regex-syntax = "=0.8.11"
chrono = { version = "=0.4.45", default-features = false, features = ["std", "clock"] }
time = "=0.3.55"
serde = { version = "=1.0.229", features = ["derive"] }
serde_json = "=1.0.154"
serde_qs = "=1.1.3"
reqwest = { version = "=0.12.28", default-features = false, features = ["json", "cookies"] }
futures = "=0.3.34"
itertools = "=0.15.0"
base64 = "=0.22.1"
percent-encoding = "=2.3.2"
log = "=0.4.35"
anyhow = "=1.0.104"
thiserror = "=1.0.69"
either = "=1.19.0"
lazy_static = "=1.5.1"
once_cell = "=1.21.4"
tokio = { version = "=1.54.1", features = ["rt", "time"] }
jsonwebtoken = "9"
twitch_api = { version = "*", features = ["helix", "eventsub", "reqwest"] }
