[package]
name = "gpu_charts"
version = "0.1.0"
edition = "2021"
publish = false

[dependencies]
prometheus = { version = "0.13", default-features = false }
uuid = { version = "1", features = ["v4"] }
dashmap = "5"
serde = { version = "1", features = ["derive"] }
serde_json = "1"
serde_yaml = "0.9"
tokio = { version = "1", features = ["rt-multi-thread", "macros", "sync", "time", "fs", "net"] }
tokio-tungstenite = "0.20"
futures-util = "0.3"
reqwest = { version = "0.11", default-features = false, features = ["json"] }
warp = { version = "0.3", default-features = false }
config = { version = "0.13", default-features = false, features = ["yaml"] }
chrono = "0.4"
byteorder = "1"
anyhow = "1"
thiserror = "1"
async-trait = "0.1"
lazy_static = "1"
tracing = "0.1"
tracing-subscriber = { version = "0.3", features = ["env-filter"] }
log = "0.4"
parking_lot = "0.12"
clap = { version = "4", features = ["derive"] }

[dev-dependencies]
tempfile = "3"
