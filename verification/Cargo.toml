[package]
name = "annex"
version = "0.1.0"
edition = "2021"
publish = false

[dependencies]
anyhow = "1"
async-trait = "0.1"
chrono = "0.4"
clap = { version = "4", features = ["derive"] }
directories = "*"
futures = "0.3"
git2 = { version = "*", default-features = false }
globset = "0.4"
ignore = "0.4"
notify = "*"
parking_lot = "0.12"
regex = "1"
rmcp = { version = "*", features = ["transport-io"] }
serde = { version = "1", features = ["derive"] }
serde_json = "1"
serde_yml = "*"
tokio = { version = "1", features = ["rt-multi-thread", "macros", "process", "sync", "io-std", "fs", "time"] }
toml = "*"
tracing = "0.1"
tracing-subscriber = { version = "0.3", features = ["env-filter"] }
uuid = { version = "1", features = ["v4"] }
