[package]
name = "transaction_bench"
version = "0.1.0"
edition = "2021"
publish = false

[dependencies]
anyhow = "*"
async-trait = "*"
axum = "*"
clap = { version = "*", features = ["derive", "env"] }
dotenv = "*"
futures = "*"
hex = "*"
humantime = "*"
near-crypto = "*"
near-jsonrpc-client = "*"
near-jsonrpc-primitives = "*"
near-primitives = "*"
prometheus-client = "*"
rand = "*"
serde_json = "*"
thiserror = "*"
tokio = { version = "*", features = ["full"] }
tower-http = { version = "*", features = ["timeout"] }
tracing = "*"
tracing-subscriber = { version = "*", features = ["env-filter"] }
