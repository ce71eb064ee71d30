[package]
name = "ironshield"
version = "0.1.0"
edition = "2021"
publish = false

[dependencies]
ironshield-core = "=0.3.22"
ironshield-types = "=0.2.10"
num_cpus = "=1.17.0"
serde_json = "=1.0.154"
toml = "=0.8.23"
serde = { version = "=1.0.229", features = ["derive"] }
thiserror = "=1.0.69"
reqwest = { version = "=0.12.28", features = ["json"] }
tokio = { version = "=1.54.1", features = ["rt-multi-thread", "macros", "time"] }
futures = "=0.3.34"
axum = "=0.7.9"
