[package]
name = "punch"
version = "0.1.0"
edition = "2021"
publish = false

[dependencies]
anyhow = "1"
bytes = "1"
clap = { version = "4", features = ["derive"] }
dashmap = "6"
dirs = "6"
inquire = "0.7"
iroh-base = "0.35"
miette = { version = "7", features = ["fancy"] }
n0-future = "0.1"
owo-colors = "4"
rand = "0.8"
serde = { version = "1", features = ["derive"] }
thiserror = "2"
tokio = { version = "1", features = ["full"] }
toml = "0.8"
tracing = "0.1"
tracing-subscriber = { version = "0.3", features = ["env-filter"] }
