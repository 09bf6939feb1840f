[package]
name = "netspeedmon"
version = "0.1.0"
edition = "2021"
publish = false

[dependencies]
anyhow = "=1.0.104"
async-trait = "=0.1.92"
chrono = "=0.4.45"
clap = "=4.6.7"
config = { version = "=0.15.27", default-features = false, features = ["toml"] }
egg-mode = "=0.16.1"
futures = "=0.3.34"
humantime = "=2.4.0"
humantime-serde = "=1.1.1"
plotters = "=0.3.7"
serde = { version = "=1.0.229", features = ["derive"] }
serde_json = "=1.0.151"
tokio = { version = "=1.53.2", features = ["full"] }
tracing = "=0.1.44"
tracing-subscriber = { version = "=0.3.23", features = ["env-filter"] }
warp = { version = "=0.4.3", features = ["server"] }
