[package]
name = "reorg_detector"
version = "0.1.0"
edition = "2021"
publish = false

[dependencies]
anyhow = "*"
async-trait = "*"
serde_json = "*"
thiserror = "*"
tokio = { version = "*", features = ["sync", "time", "rt", "macros"] }
tracing = "*"
